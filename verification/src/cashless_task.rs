//! The task of the cashless reader: it brings the reader up, polls it,
//! reacts to what the reader reports, and carries out the commands of the
//! orchestrator.
//!
//! The task is a state machine. One cycle is a poll, the frames that the
//! events of the poll and the pending command call for, and a sleep. Each
//! step hands out one action together with the events to publish and the
//! answer for the orchestrator; the caller performs the action and comes back
//! with what happened.

use vstd::prelude::*;
use crate::cashless_device::{
    decode_poll,
    poll_events,
    CashlessDeviceCommand,
    CashlessDeviceResponse,
    Frame,
    PollEvent,
};
use crate::mdb::{payload_view, BusError};

verus! {

/// The time between two polls, in milliseconds.
pub const POLL_INTERVAL_MS: u32 = 100;

/// How often an absent reader's task looks for commands before it brings the
/// reader up again; the first look is taken when the reader is given up.
pub const ABSENT_CHECKS: u8 = 10;

/// The sleep after each such look, in milliseconds; ten of them make the
/// ten seconds between two attempts.
pub const ABSENT_CHECK_MS: u32 = 1000;

/// Where the reader and its session stand.
#[derive(Clone, Copy, Debug, PartialEq, Eq, Structural)]
pub enum Session {
    /// No reader is known.
    Absent,
    /// The reader is being brought up.
    Initializing,
    /// The reader is up and switched off.
    Idle,
    /// The reader is switched on and no session is open.
    Enabled,
    /// A vend was requested; the reader has not decided yet.
    Starting,
    /// The reader has approved the vend; the item is being dispensed.
    Approved,
    /// The reader has denied the vend; the session is being completed.
    Denied,
    /// The vend succeeded; the session is being completed.
    Settling,
    /// The vend failed; the session is being completed.
    Refunding,
    /// The vend was cancelled; the reader's denial is awaited.
    Cancelling,
    /// The reader gave the session up; it is being completed.
    Ending,
}

/// What the task is waiting for.
#[derive(Clone, Copy, Debug, PartialEq, Eq, Structural)]
pub enum Activity {
    /// The sleep to pass.
    Sleeping,
    /// The reply to a poll.
    Polling,
    /// The reply to the frame at the head of the queue.
    Sending,
}

/// What happened since the last step.
#[derive(Debug, PartialEq, Eq)]
pub enum CashlessInput {
    /// The sleep has passed, or the task has just been started.
    Woke,
    /// The bus transaction has ended.
    Reply(Result<Vec<u8>, BusError>),
}

/// What the task asks for next.
#[derive(Clone, Copy, Debug, PartialEq, Eq, Structural)]
pub enum CashlessAction {
    /// One transaction with the reader.
    Transact(Frame),
    /// Nothing for this long.
    Sleep { ms: u32 },
}

/// The result of one step.
#[derive(Clone, Debug, PartialEq, Eq)]
pub struct CashlessOutput {
    /// The events to publish to the host, in order.
    pub publish: Vec<PollEvent>,
    /// The answer for the orchestrator, if there is one.
    pub respond: Option<CashlessDeviceResponse>,
    pub action: CashlessAction,
}

/// The task of the cashless reader.
#[derive(Clone, Debug, PartialEq, Eq)]
pub struct CashlessTask {
    pub session: Session,
    pub activity: Activity,
    /// The frames of this cycle that are still to be sent, the one in
    /// flight first.
    pub queue: Vec<Frame>,
    /// The command of the orchestrator that has not been carried out yet.
    pub pending: Option<CashlessDeviceCommand>,
    /// The looks that an absent reader's task still takes before the next
    /// attempt.
    pub absent_checks: u8,
}

/// An input as a value of the logic.
pub ghost enum CashlessInputModel {
    Woke,
    Reply(Result<Seq<u8>, BusError>),
}

/// The result of a step as a value of the logic.
pub ghost struct CashlessOutputModel {
    pub publish: Seq<PollEvent>,
    pub respond: Option<CashlessDeviceResponse>,
    pub action: CashlessAction,
}

/// The task as a value of the logic.
pub ghost struct CashlessTaskModel {
    pub session: Session,
    pub activity: Activity,
    pub queue: Seq<Frame>,
    pub pending: Option<CashlessDeviceCommand>,
    pub absent_checks: u8,
}

/// What the events of one poll have brought about so far.
pub ghost struct CycleModel {
    pub session: Session,
    pub queue: Seq<Frame>,
    pub publish: Seq<PollEvent>,
    pub respond: Option<CashlessDeviceResponse>,
    /// The reader has reported a fault; the rest of the poll is not looked at.
    pub fault: bool,
}

/// A session in which a vend is under way and not yet decided or settled.
pub open spec fn vend_open(session: Session) -> bool {
    session == Session::Starting || session == Session::Approved || session
        == Session::Cancelling
}

/// A session that only waits to be completed.
pub open spec fn closing(session: Session) -> bool {
    session == Session::Denied || session == Session::Settling || session == Session::Refunding
        || session == Session::Ending
}

/// The frames that bring the reader up, in order.
pub open spec fn init_frames() -> Seq<Frame> {
    seq![Frame::Reset, Frame::Setup, Frame::RequestId, Frame::Enable]
}

/// What one event of a poll brings about.
///
/// A session that the reader opens by itself is cancelled at once and not
/// published. An approval moves a requested vend to `Approved`. A denial
/// completes the session. The orchestrator is answered for an approval and
/// for a denial. A malfunction, or a command out of sequence, is a fault.
pub open spec fn on_event(c: CycleModel, event: PollEvent) -> CycleModel {
    if c.fault {
        c
    } else {
        match event {
            PollEvent::BeginSession(_) => CycleModel { queue: c.queue.push(Frame::VendCancel), ..c },
            PollEvent::VendApproved(amount) => CycleModel {
                session: if c.session == Session::Starting {
                    Session::Approved
                } else {
                    c.session
                },
                publish: c.publish.push(event),
                respond: Some(CashlessDeviceResponse::VendApproved(amount)),
                ..c
            },
            PollEvent::VendDenied => CycleModel {
                session: if vend_open(c.session) {
                    Session::Denied
                } else {
                    c.session
                },
                queue: c.queue.push(Frame::SessionComplete),
                publish: c.publish.push(event),
                respond: Some(CashlessDeviceResponse::VendDenied),
                ..c
            },
            PollEvent::SessionCancelRequest | PollEvent::Cancelled => CycleModel {
                session: if vend_open(c.session) {
                    Session::Ending
                } else {
                    c.session
                },
                queue: c.queue.push(Frame::SessionComplete),
                publish: c.publish.push(event),
                ..c
            },
            PollEvent::EndSession => CycleModel { publish: c.publish.push(event), ..c },
            PollEvent::Malfunction(_) | PollEvent::CmdOutOfSequence => CycleModel {
                publish: c.publish.push(event),
                fault: true,
                ..c
            },
        }
    }
}

/// What the events of a poll bring about, one after the other.
pub open spec fn on_events(c: CycleModel, events: Seq<PollEvent>) -> CycleModel
    decreases events.len(),
{
    if events.len() == 0 {
        c
    } else {
        on_event(on_events(c, events.drop_last()), events.last())
    }
}

/// The frames that carry a command to the reader, in order. A settlement
/// is followed by the end of the session; a reset is no frame of its own
/// but a new bring-up.
pub open spec fn command_frames(command: CashlessDeviceCommand) -> Seq<Frame> {
    match command {
        CashlessDeviceCommand::Reset => Seq::empty(),
        CashlessDeviceCommand::Enable => seq![Frame::Enable],
        CashlessDeviceCommand::Disable => seq![Frame::Disable],
        CashlessDeviceCommand::RecordCashTransaction(amount, item) => seq![
            Frame::CashSale(amount, item),
        ],
        CashlessDeviceCommand::StartTransaction(amount, item) => seq![
            Frame::VendRequest(amount, item),
        ],
        CashlessDeviceCommand::CancelTransaction => seq![Frame::VendCancel],
        CashlessDeviceCommand::VendSuccess(item) => seq![
            Frame::VendSuccess(item),
            Frame::SessionComplete,
        ],
        CashlessDeviceCommand::VendFailed => seq![Frame::VendFailure, Frame::SessionComplete],
    }
}

/// The session that the task tracks after a command.
///
/// A request opens a session where the reader is enabled, or where the
/// session before it is just being completed. A cancellation marks a vend
/// that is requested or approved as cancelled. A settlement marks an
/// approved vend as settling or refunding. Elsewhere the tracked session
/// stays as it is.
pub open spec fn session_after(session: Session, command: CashlessDeviceCommand) -> Session {
    match command {
        CashlessDeviceCommand::StartTransaction(_, _) => if session == Session::Enabled || closing(
            session,
        ) {
            Session::Starting
        } else {
            session
        },
        CashlessDeviceCommand::CancelTransaction => if session == Session::Starting || session
            == Session::Approved {
            Session::Cancelling
        } else {
            session
        },
        CashlessDeviceCommand::VendSuccess(_) => if session == Session::Approved {
            Session::Settling
        } else {
            session
        },
        CashlessDeviceCommand::VendFailed => if session == Session::Approved {
            Session::Refunding
        } else {
            session
        },
        _ => session,
    }
}

/// What a command of the orchestrator brings about: the session afterwards,
/// and the queue with the frames of the command behind what the events of
/// the poll have queued.
///
/// Every command goes to the reader, whatever session the task tracks:
/// its frames are queued once, in order.
pub open spec fn on_command(session: Session, queue: Seq<Frame>, command: CashlessDeviceCommand) -> (
    Session,
    Seq<Frame>,
) {
    (session_after(session, command), queue + command_frames(command))
}

/// The session after the reader has acknowledged a frame.
pub open spec fn after_sent(session: Session, frame: Frame) -> Session {
    if session == Session::Initializing && frame == Frame::RequestId {
        Session::Idle
    } else if session == Session::Idle && frame == Frame::Enable {
        Session::Enabled
    } else if session == Session::Enabled && frame == Frame::Disable {
        Session::Idle
    } else if closing(session) && frame == Frame::SessionComplete {
        Session::Enabled
    } else {
        session
    }
}

/// What a look for commands answers while the reader is absent: a pending
/// command is answered with `Unavailable`.
pub open spec fn look(t: CashlessTaskModel) -> Option<CashlessDeviceResponse> {
    if t.pending is Some {
        Some(CashlessDeviceResponse::Unavailable)
    } else {
        None
    }
}

/// The step that gives the reader up for ten seconds: the first of ten
/// looks for commands is taken at once, and the first of ten sleeps of one
/// second follows.
pub open spec fn give_up(t: CashlessTaskModel) -> (CashlessTaskModel, CashlessOutputModel) {
    (
        CashlessTaskModel {
            session: Session::Absent,
            activity: Activity::Sleeping,
            queue: Seq::empty(),
            pending: None,
            absent_checks: (ABSENT_CHECKS - 1) as u8,
        },
        CashlessOutputModel {
            publish: Seq::empty(),
            respond: look(t),
            action: CashlessAction::Sleep { ms: ABSENT_CHECK_MS },
        },
    )
}

/// The step that starts to bring the reader up: what is queued goes out
/// first, then the frames of the bring-up.
pub open spec fn begin_init(
    t: CashlessTaskModel,
    publish: Seq<PollEvent>,
    respond: Option<CashlessDeviceResponse>,
) -> (CashlessTaskModel, CashlessOutputModel) {
    (
        CashlessTaskModel {
            session: Session::Initializing,
            activity: Activity::Sending,
            queue: t.queue + init_frames(),
            absent_checks: 0,
            ..t
        },
        CashlessOutputModel {
            publish,
            respond,
            action: CashlessAction::Transact((t.queue + init_frames())[0]),
        },
    )
}

/// The sleep that ends a cycle: the time to the next poll, or none where
/// the reader was lost to a fault and is to be brought up at once.
pub open spec fn cycle_sleep_ms(session: Session) -> u32 {
    if session == Session::Absent {
        0
    } else {
        POLL_INTERVAL_MS
    }
}

/// The step that goes on with the queue: the next frame, or the sleep
/// that ends the cycle.
pub open spec fn proceed(
    t: CashlessTaskModel,
    publish: Seq<PollEvent>,
    respond: Option<CashlessDeviceResponse>,
) -> (CashlessTaskModel, CashlessOutputModel) {
    if t.queue.len() == 0 {
        (
            CashlessTaskModel { activity: Activity::Sleeping, ..t },
            CashlessOutputModel {
                publish,
                respond,
                action: CashlessAction::Sleep { ms: cycle_sleep_ms(t.session) },
            },
        )
    } else {
        (
            CashlessTaskModel { activity: Activity::Sending, ..t },
            CashlessOutputModel { publish, respond, action: CashlessAction::Transact(t.queue[0]) },
        )
    }
}

/// What follows the reply to a poll.
///
/// The events are taken in order, then the pending command, and the frames
/// that they call for go out in that order. A fault loses the reader: the
/// frames that the events before it have queued still go out, then the
/// reader is brought up again at once; the pending command stays. A
/// reset command starts the bring-up behind what the events have queued.
pub open spec fn after_poll(t: CashlessTaskModel, bytes: Seq<u8>) -> (
    CashlessTaskModel,
    CashlessOutputModel,
) {
    let c = on_events(
        CycleModel {
            session: t.session,
            queue: t.queue,
            publish: Seq::empty(),
            respond: None,
            fault: false,
        },
        poll_events(bytes),
    );
    if c.fault {
        proceed(
            CashlessTaskModel { session: Session::Absent, queue: c.queue, absent_checks: 0, ..t },
            c.publish,
            c.respond,
        )
    } else {
        match t.pending {
            Some(CashlessDeviceCommand::Reset) => begin_init(
                CashlessTaskModel { queue: c.queue, pending: None, ..t },
                c.publish,
                c.respond,
            ),
            Some(command) => {
                let (session, queue) = on_command(c.session, c.queue, command);
                proceed(CashlessTaskModel { session, queue, pending: None, ..t }, c.publish, c.respond)
            },
            None => proceed(
                CashlessTaskModel { session: c.session, queue: c.queue, ..t },
                c.publish,
                c.respond,
            ),
        }
    }
}

/// One step of the task.
///
/// While the reader is absent the task looks for commands once a second,
/// answers a pending command with `Unavailable`, and brings the reader up
/// ten seconds after it gave it up. Else it polls when it wakes, sends
/// the frames that the poll and the pending command call for, one by one,
/// and sleeps. A bus error, or an input that the task does not wait for,
/// gives the reader up.
pub open spec fn task_step(t: CashlessTaskModel, input: CashlessInputModel) -> (
    CashlessTaskModel,
    CashlessOutputModel,
) {
    match (t.activity, input) {
        (Activity::Sleeping, CashlessInputModel::Woke) => {
            if t.session != Session::Absent {
                (
                    CashlessTaskModel { activity: Activity::Polling, ..t },
                    CashlessOutputModel {
                        publish: Seq::empty(),
                        respond: None,
                        action: CashlessAction::Transact(Frame::Poll),
                    },
                )
            } else if t.absent_checks > 0 {
                (
                    CashlessTaskModel {
                        absent_checks: (t.absent_checks - 1) as u8,
                        pending: None,
                        ..t
                    },
                    CashlessOutputModel {
                        publish: Seq::empty(),
                        respond: look(t),
                        action: CashlessAction::Sleep { ms: ABSENT_CHECK_MS },
                    },
                )
            } else {
                begin_init(t, Seq::empty(), None)
            }
        },
        (Activity::Polling, CashlessInputModel::Reply(Ok(bytes))) => after_poll(t, bytes),
        (Activity::Sending, CashlessInputModel::Reply(Ok(_))) => {
            if t.queue.len() == 0 {
                give_up(t)
            } else {
                proceed(
                    CashlessTaskModel {
                        session: after_sent(t.session, t.queue[0]),
                        queue: t.queue.remove(0),
                        ..t
                    },
                    Seq::empty(),
                    None,
                )
            }
        },
        _ => give_up(t),
    }
}

impl CashlessInput {
    pub open spec fn view(self) -> CashlessInputModel {
        match self {
            CashlessInput::Woke => CashlessInputModel::Woke,
            CashlessInput::Reply(r) => CashlessInputModel::Reply(payload_view(r)),
        }
    }
}

impl CashlessOutput {
    pub open spec fn view(self) -> CashlessOutputModel {
        CashlessOutputModel { publish: self.publish@, respond: self.respond, action: self.action }
    }
}

/// The effect of the events of one poll, as the task gathers it.
struct Cycle {
    session: Session,
    queue: Vec<Frame>,
    publish: Vec<PollEvent>,
    respond: Option<CashlessDeviceResponse>,
    fault: bool,
}

impl Cycle {
    spec fn view(self) -> CycleModel {
        CycleModel {
            session: self.session,
            queue: self.queue@,
            publish: self.publish@,
            respond: self.respond,
            fault: self.fault,
        }
    }

    fn on_event(&mut self, event: PollEvent)
        ensures
            final(self)@ == on_event(old(self)@, event),
    {
        if self.fault {
            return ;
        }
        let open = self.session == Session::Starting || self.session == Session::Approved
            || self.session == Session::Cancelling;
        match event {
            PollEvent::BeginSession(_) => {
                self.queue.push(Frame::VendCancel);
            },
            PollEvent::VendApproved(amount) => {
                if self.session == Session::Starting {
                    self.session = Session::Approved;
                }
                self.publish.push(event);
                self.respond = Some(CashlessDeviceResponse::VendApproved(amount));
            },
            PollEvent::VendDenied => {
                if open {
                    self.session = Session::Denied;
                }
                self.queue.push(Frame::SessionComplete);
                self.publish.push(event);
                self.respond = Some(CashlessDeviceResponse::VendDenied);
            },
            PollEvent::SessionCancelRequest | PollEvent::Cancelled => {
                if open {
                    self.session = Session::Ending;
                }
                self.queue.push(Frame::SessionComplete);
                self.publish.push(event);
            },
            PollEvent::EndSession => {
                self.publish.push(event);
            },
            PollEvent::Malfunction(_) | PollEvent::CmdOutOfSequence => {
                self.publish.push(event);
                self.fault = true;
            },
        }
    }
}

impl CashlessTask {
    /// The task as a value of the logic.
    pub open spec fn view(self) -> CashlessTaskModel {
        CashlessTaskModel {
            session: self.session,
            activity: self.activity,
            queue: self.queue@,
            pending: self.pending,
            absent_checks: self.absent_checks,
        }
    }

    /// A task that knows no reader yet and brings it up at its first step.
    pub fn new() -> (task: CashlessTask)
        ensures
            task@ == (CashlessTaskModel {
                session: Session::Absent,
                activity: Activity::Sleeping,
                queue: Seq::empty(),
                pending: None,
                absent_checks: 0,
            }),
    {
        CashlessTask {
            session: Session::Absent,
            activity: Activity::Sleeping,
            queue: Vec::new(),
            pending: None,
            absent_checks: 0,
        }
    }

    /// Hands a command of the orchestrator to the task, which carries it
    /// out after its next poll. The channel holds one command: a later one
    /// replaces one that is still pending.
    pub fn command(&mut self, command: CashlessDeviceCommand)
        ensures
            final(self)@ == (CashlessTaskModel { pending: Some(command), ..old(self)@ }),
    {
        self.pending = Some(command);
    }

    fn look(&mut self) -> (respond: Option<CashlessDeviceResponse>)
        ensures
            respond == look(old(self)@),
            final(self)@ == (CashlessTaskModel { pending: None, ..old(self)@ }),
    {
        let respond = match self.pending {
            Some(_) => Some(CashlessDeviceResponse::Unavailable),
            None => None,
        };
        self.pending = None;
        respond
    }

    fn give_up(&mut self) -> (out: CashlessOutput)
        ensures
            (final(self)@, out@) == give_up(old(self)@),
    {
        let respond = self.look();
        self.session = Session::Absent;
        self.activity = Activity::Sleeping;
        self.queue = Vec::new();
        self.absent_checks = ABSENT_CHECKS - 1;
        CashlessOutput {
            publish: Vec::new(),
            respond,
            action: CashlessAction::Sleep { ms: ABSENT_CHECK_MS },
        }
    }

    fn begin_init(
        &mut self,
        publish: Vec<PollEvent>,
        respond: Option<CashlessDeviceResponse>,
    ) -> (out: CashlessOutput)
        ensures
            (final(self)@, out@) == begin_init(old(self)@, publish@, respond),
    {
        self.queue.push(Frame::Reset);
        self.queue.push(Frame::Setup);
        self.queue.push(Frame::RequestId);
        self.queue.push(Frame::Enable);
        proof {
            assert(self.queue@ =~= old(self).queue@ + init_frames());
        }
        self.session = Session::Initializing;
        self.activity = Activity::Sending;
        self.absent_checks = 0;
        CashlessOutput { publish, respond, action: CashlessAction::Transact(self.queue[0]) }
    }

    fn proceed(
        &mut self,
        publish: Vec<PollEvent>,
        respond: Option<CashlessDeviceResponse>,
    ) -> (out: CashlessOutput)
        ensures
            (final(self)@, out@) == proceed(old(self)@, publish@, respond),
    {
        if self.queue.len() == 0 {
            self.activity = Activity::Sleeping;
            let ms = if self.session == Session::Absent {
                0
            } else {
                POLL_INTERVAL_MS
            };
            CashlessOutput { publish, respond, action: CashlessAction::Sleep { ms } }
        } else {
            self.activity = Activity::Sending;
            CashlessOutput { publish, respond, action: CashlessAction::Transact(self.queue[0]) }
        }
    }

    fn apply_command(&mut self, command: CashlessDeviceCommand)
        ensures
            final(self)@ == (CashlessTaskModel {
                session: on_command(old(self).session, old(self).queue@, command).0,
                queue: on_command(old(self).session, old(self).queue@, command).1,
                ..old(self)@
            }),
    {
        let closing = self.session == Session::Denied || self.session == Session::Settling
            || self.session == Session::Refunding || self.session == Session::Ending;
        match command {
            CashlessDeviceCommand::Reset => {},
            CashlessDeviceCommand::Enable => {
                self.queue.push(Frame::Enable);
            },
            CashlessDeviceCommand::Disable => {
                self.queue.push(Frame::Disable);
            },
            CashlessDeviceCommand::RecordCashTransaction(amount, item) => {
                self.queue.push(Frame::CashSale(amount, item));
            },
            CashlessDeviceCommand::StartTransaction(amount, item) => {
                if self.session == Session::Enabled || closing {
                    self.session = Session::Starting;
                }
                self.queue.push(Frame::VendRequest(amount, item));
            },
            CashlessDeviceCommand::CancelTransaction => {
                if self.session == Session::Starting || self.session == Session::Approved {
                    self.session = Session::Cancelling;
                }
                self.queue.push(Frame::VendCancel);
            },
            CashlessDeviceCommand::VendSuccess(item) => {
                if self.session == Session::Approved {
                    self.session = Session::Settling;
                }
                self.queue.push(Frame::VendSuccess(item));
                self.queue.push(Frame::SessionComplete);
            },
            CashlessDeviceCommand::VendFailed => {
                if self.session == Session::Approved {
                    self.session = Session::Refunding;
                }
                self.queue.push(Frame::VendFailure);
                self.queue.push(Frame::SessionComplete);
            },
        }
        proof {
            assert(self.queue@ =~= old(self).queue@ + command_frames(command));
        }
    }

    fn after_poll(&mut self, bytes: &Vec<u8>) -> (out: CashlessOutput)
        ensures
            (final(self)@, out@) == after_poll(old(self)@, bytes@),
    {
        let events = decode_poll(bytes);
        let mut queue: Vec<Frame> = Vec::new();
        core::mem::swap(&mut queue, &mut self.queue);
        let mut cycle = Cycle {
            session: self.session,
            queue,
            publish: Vec::new(),
            respond: None,
            fault: false,
        };
        let ghost start = cycle@;
        let mut i: usize = 0;
        while i < events.len()
            invariant
                i <= events.len(),
                cycle@ == on_events(start, events@.take(i as int)),
            decreases events.len() - i,
        {
            proof {
                assert(events@.take(i + 1).drop_last() =~= events@.take(i as int));
            }
            cycle.on_event(events[i]);
            i = i + 1;
        }
        proof {
            assert(events@.take(i as int) =~= events@);
        }
        let Cycle { session, queue, publish, respond, fault } = cycle;
        self.queue = queue;
        if fault {
            self.session = Session::Absent;
            self.absent_checks = 0;
            return self.proceed(publish, respond);
        }
        match self.pending {
            Some(CashlessDeviceCommand::Reset) => {
                self.pending = None;
                self.begin_init(publish, respond)
            },
            Some(command) => {
                self.session = session;
                self.pending = None;
                self.apply_command(command);
                self.proceed(publish, respond)
            },
            None => {
                self.session = session;
                self.proceed(publish, respond)
            },
        }
    }

    fn acknowledged(&mut self)
        requires
            old(self).queue@.len() > 0,
        ensures
            final(self)@ == (CashlessTaskModel {
                session: after_sent(old(self).session, old(self).queue@[0]),
                queue: old(self).queue@.remove(0),
                ..old(self)@
            }),
    {
        let frame = self.queue.remove(0);
        let closing = self.session == Session::Denied || self.session == Session::Settling
            || self.session == Session::Refunding || self.session == Session::Ending;
        if self.session == Session::Initializing && frame == Frame::RequestId {
            self.session = Session::Idle;
        } else if self.session == Session::Idle && frame == Frame::Enable {
            self.session = Session::Enabled;
        } else if self.session == Session::Enabled && frame == Frame::Disable {
            self.session = Session::Idle;
        } else if closing && frame == Frame::SessionComplete {
            self.session = Session::Enabled;
        }
    }
}

/// One step of the task: takes what happened and says what to publish, what
/// to answer, and what to do next.
pub fn cashless_device_task(task: &mut CashlessTask, input: CashlessInput) -> (out: CashlessOutput)
    ensures
        (final(task)@, out@) == task_step(old(task)@, input@),
{
    match (task.activity, input) {
        (Activity::Sleeping, CashlessInput::Woke) => {
            if task.session != Session::Absent {
                task.activity = Activity::Polling;
                CashlessOutput {
                    publish: Vec::new(),
                    respond: None,
                    action: CashlessAction::Transact(Frame::Poll),
                }
            } else if task.absent_checks > 0 {
                let respond = task.look();
                task.absent_checks = task.absent_checks - 1;
                CashlessOutput {
                    publish: Vec::new(),
                    respond,
                    action: CashlessAction::Sleep { ms: ABSENT_CHECK_MS },
                }
            } else {
                task.begin_init(Vec::new(), None)
            }
        },
        (Activity::Polling, CashlessInput::Reply(Ok(bytes))) => task.after_poll(&bytes),
        (Activity::Sending, CashlessInput::Reply(Ok(_))) => {
            if task.queue.len() == 0 {
                task.give_up()
            } else {
                task.acknowledged();
                task.proceed(Vec::new(), None)
            }
        },
        _ => task.give_up(),
    }
}

} // verus!
