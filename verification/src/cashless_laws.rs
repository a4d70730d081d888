//! What holds of the reader task in every state: a session changes only on
//! an event or a command, every command reaches the reader with its frames
//! in order, an approved vend is left only by a settlement, a cancellation,
//! the reader's own end of the session or a fault, a cancelled vend comes
//! back to `Enabled` as soon as the reader has denied it, and a reader that
//! was given up is brought up again after ten seconds.

use vstd::prelude::*;
use crate::cashless_device::{
    poll_events,
    CashlessDeviceCommand,
    CashlessDeviceResponse,
    Frame,
    PollEvent,
    POLL_VEND_DENIED,
};
use crate::cashless_task::{
    command_frames,
    init_frames,
    look,
    on_command,
    on_event,
    on_events,
    task_step,
    Activity,
    CashlessAction,
    CashlessInputModel,
    CashlessTaskModel,
    CycleModel,
    Session,
    ABSENT_CHECK_MS,
    POLL_INTERVAL_MS,
};
use crate::mdb::BusError;

verus! {

/// The events of a poll, taken one after the other, are the last event
/// taken after all the others.
pub proof fn lemma_on_events_push(c: CycleModel, events: Seq<PollEvent>, event: PollEvent)
    ensures
        on_events(c, events.push(event)) == on_event(on_events(c, events), event),
{
    assert(events.push(event).drop_last() =~= events);
}

/// A poll with one event.
pub proof fn lemma_on_events_single(c: CycleModel, event: PollEvent)
    ensures
        on_events(c, seq![event]) == on_event(c, event),
        on_events(c, Seq::empty()) == c,
{
    lemma_on_events_push(c, Seq::empty(), event);
    assert(seq![event] =~= Seq::<PollEvent>::empty().push(event));
}

/// A reply of the one byte `0x06` is a denial and nothing else.
pub proof fn lemma_denial_bytes()
    ensures
        poll_events(seq![POLL_VEND_DENIED]) == seq![PollEvent::VendDenied],
        poll_events(Seq::<u8>::empty()) == Seq::<PollEvent>::empty(),
{
    let bytes = seq![POLL_VEND_DENIED];
    assert(bytes.skip(1) =~= Seq::<u8>::empty());
    assert(poll_events(bytes.skip(1)) == Seq::<PollEvent>::empty());
    assert(poll_events(bytes) =~= seq![PollEvent::VendDenied]);
}

/// An event that neither ends a session nor reports a fault.
pub open spec fn harmless(event: PollEvent) -> bool {
    event is BeginSession || event is VendApproved || event is EndSession
}

/// The session never changes by itself: a task that wakes goes on to poll
/// in the same session, and a poll that reports nothing, with no command
/// pending, leaves the session as it was and ends the cycle.
pub proof fn lemma_no_spontaneous_transition(t: CashlessTaskModel, bytes: Seq<u8>)
    requires
        t.session != Session::Absent,
    ensures
        t.activity == Activity::Sleeping ==> task_step(t, CashlessInputModel::Woke).0.session
            == t.session,
        t.activity == Activity::Polling && poll_events(bytes).len() == 0 && t.pending is None
            ==> task_step(t, CashlessInputModel::Reply(Ok(bytes))).0.session == t.session
            && task_step(t, CashlessInputModel::Reply(Ok(bytes))).1.publish.len() == 0
            && task_step(t, CashlessInputModel::Reply(Ok(bytes))).1.respond is None,
{
}

/// What the events of a poll can do to an approved vend: nothing, unless the
/// reader denies it, gives the session up, or reports a fault. Harmless
/// events leave it approved.
pub proof fn lemma_events_on_approved(c: CycleModel, events: Seq<PollEvent>)
    requires
        c.session == Session::Approved,
        !c.fault,
    ensures
        ({
            let after = on_events(c, events);
            &&& after.session == Session::Approved || after.session == Session::Denied
                || after.session == Session::Ending
            &&& (forall|i: int| 0 <= i < events.len() ==> harmless(#[trigger] events[i]))
                ==> after.session == Session::Approved && !after.fault
        }),
    decreases events.len(),
{
    if events.len() > 0 {
        lemma_events_on_approved(c, events.drop_last());
    }
}

/// An approved vend is left only in these ways: the orchestrator settles
/// it with `VendSuccess` or `VendFailed`, whose frame is then in the queue
/// of this cycle; the orchestrator cancels it; the reader denies it or
/// gives the session up, with or without a new request behind it; or the
/// reader is lost, by a fault, a bus error or a reset.
pub proof fn lemma_approved_is_left_by(t: CashlessTaskModel, input: CashlessInputModel)
    requires
        t.session == Session::Approved,
    ensures
        ({
            let next = task_step(t, input).0;
            ||| next.session == Session::Approved
            ||| next.session == Session::Settling && (exists|item|
                t.pending == Some(CashlessDeviceCommand::VendSuccess(item)) && next.queue.len()
                    >= 2 && next.queue[next.queue.len() - 2] == Frame::VendSuccess(item)
                    && next.queue.last() == Frame::SessionComplete)
            ||| next.session == Session::Refunding && t.pending == Some(
                CashlessDeviceCommand::VendFailed,
            ) && next.queue.len() >= 2 && next.queue[next.queue.len() - 2] == Frame::VendFailure
                && next.queue.last() == Frame::SessionComplete
            ||| next.session == Session::Cancelling && t.pending == Some(
                CashlessDeviceCommand::CancelTransaction,
            )
            ||| next.session == Session::Denied
            ||| next.session == Session::Ending
            ||| next.session == Session::Starting && (exists|amount, item|
                t.pending == Some(CashlessDeviceCommand::StartTransaction(amount, item)))
            ||| next.session == Session::Absent
            ||| next.session == Session::Initializing
        }),
{
    match input {
        CashlessInputModel::Reply(Ok(bytes)) => {
            if t.activity == Activity::Polling {
                let start = CycleModel {
                    session: t.session,
                    queue: t.queue,
                    publish: Seq::empty(),
                    respond: None,
                    fault: false,
                };
                lemma_events_on_approved(start, poll_events(bytes));
                let c = on_events(start, poll_events(bytes));
                if !c.fault && c.session == Session::Approved {
                    match t.pending {
                        Some(CashlessDeviceCommand::VendSuccess(item)) => {
                            let next = task_step(t, input).0;
                            assert(next.queue =~= c.queue.push(Frame::VendSuccess(item)).push(
                                Frame::SessionComplete,
                            ));
                        },
                        _ => {},
                    }
                }
            }
        },
        _ => {},
    }
}

/// While the reader is there and reports only harmless events, and the
/// orchestrator neither cancels nor resets, an approved vend stays approved
/// until `VendSuccess` or `VendFailed` is dispatched: the session that
/// follows `Approved` is `Settling` or `Refunding`, and nothing else.
pub proof fn lemma_approved_until_settled(t: CashlessTaskModel, bytes: Seq<u8>)
    requires
        t.session == Session::Approved,
        t.activity == Activity::Polling,
        forall|i: int| 0 <= i < poll_events(bytes).len() ==> harmless(#[trigger] poll_events(bytes)[i]),
        t.pending != Some(CashlessDeviceCommand::CancelTransaction),
        t.pending != Some(CashlessDeviceCommand::Reset),
    ensures
        ({
            let next = task_step(t, CashlessInputModel::Reply(Ok(bytes))).0;
            &&& next.session == Session::Approved || next.session == Session::Settling
                || next.session == Session::Refunding
            &&& next.session == Session::Settling <==> (exists|item|
                t.pending == Some(CashlessDeviceCommand::VendSuccess(item)))
            &&& next.session == Session::Refunding <==> t.pending == Some(
                CashlessDeviceCommand::VendFailed,
            )
        }),
{
    let start = CycleModel {
        session: t.session,
        queue: t.queue,
        publish: Seq::empty(),
        respond: None,
        fault: false,
    };
    lemma_events_on_approved(start, poll_events(bytes));
}

/// Every cancellation goes to the reader, whatever session the task
/// tracks: one cancel frame is queued behind what is queued already. And
/// cancelling is idempotent in its effect on the session: a vend that is
/// requested or approved is marked as cancelled, every other session stays
/// as it is, and a second cancellation ends in the same session as the
/// first.
pub proof fn lemma_cancel_is_sent_and_idempotent(session: Session, queue: Seq<Frame>)
    ensures
        ({
            let once = on_command(session, queue, CashlessDeviceCommand::CancelTransaction);
            let twice = on_command(once.0, once.1, CashlessDeviceCommand::CancelTransaction);
            &&& once.1 == queue.push(Frame::VendCancel)
            &&& twice.1 == queue.push(Frame::VendCancel).push(Frame::VendCancel)
            &&& twice.0 == once.0
            &&& session == Session::Starting || session == Session::Approved ==> once.0
                == Session::Cancelling
            &&& session != Session::Starting && session != Session::Approved ==> once.0 == session
        }),
{
    let once = on_command(session, queue, CashlessDeviceCommand::CancelTransaction);
    assert(once.1 =~= queue.push(Frame::VendCancel));
    assert(on_command(once.0, once.1, CashlessDeviceCommand::CancelTransaction).1 =~= queue.push(
        Frame::VendCancel,
    ).push(Frame::VendCancel));
}

/// Every command reaches the reader: when the poll has been answered
/// without a fault, the frames of the pending command are queued once, in
/// order, behind what the events of the poll have queued, and the command is
/// pending no more. With a quiet poll and nothing queued, the first frame
/// of the command is the next thing on the bus, in whatever session the
/// task stands.
pub proof fn lemma_command_reaches_reader(
    t: CashlessTaskModel,
    bytes: Seq<u8>,
    command: CashlessDeviceCommand,
)
    requires
        t.activity == Activity::Polling,
        t.pending == Some(command),
        command != CashlessDeviceCommand::Reset,
    ensures
        ({
            let c = on_events(
                CycleModel {
                    session: t.session,
                    queue: t.queue,
                    publish: Seq::empty(),
                    respond: None,
                    fault: false,
                },
                poll_events(bytes),
            );
            let step = task_step(t, CashlessInputModel::Reply(Ok(bytes)));
            &&& command_frames(command).len() >= 1
            &&& !c.fault ==> step.0.queue == c.queue + command_frames(command)
                && step.0.pending is None && step.0.activity == Activity::Sending
                && step.1.action == CashlessAction::Transact(step.0.queue[0])
            &&& poll_events(bytes).len() == 0 && t.queue.len() == 0 ==> step.0.queue
                == command_frames(command) && step.1.action == CashlessAction::Transact(
                command_frames(command)[0],
            )
        }),
{
    let start = CycleModel {
        session: t.session,
        queue: t.queue,
        publish: Seq::empty(),
        respond: None,
        fault: false,
    };
    if poll_events(bytes).len() == 0 && t.queue.len() == 0 {
        assert(start.queue + command_frames(command) =~= command_frames(command));
    }
}

/// The frames of a cycle go out one by one, in the order in which they
/// were queued: when the reader has acknowledged the frame in flight, the
/// next one in the queue follows, and after the last the task sleeps.
pub proof fn lemma_queue_goes_out_in_order(t: CashlessTaskModel, ack: Seq<u8>)
    requires
        t.activity == Activity::Sending,
        t.queue.len() > 0,
    ensures
        ({
            let step = task_step(t, CashlessInputModel::Reply(Ok(ack)));
            &&& step.0.queue == t.queue.remove(0)
            &&& step.0.pending == t.pending
            &&& step.1.publish.len() == 0 && step.1.respond is None
            &&& t.queue.len() > 1 ==> step.1.action == CashlessAction::Transact(t.queue[1])
            &&& t.queue.len() == 1 ==> step.1.action is Sleep && step.0.activity
                == Activity::Sleeping
        }),
{
}

/// A cancellation in any state of a reader that is up ends at `Enabled`
/// one poll after it went out, as soon as the reader has denied the vend; a
/// reader that is switched off stays switched off.
///
/// In the first cycle the task polls, sends the cancel frame and sleeps. In
/// the second the reader reports the denial; the task answers the
/// orchestrator with `VendDenied`, completes the session, and stands at
/// `Enabled` when the reader has acknowledged.
pub proof fn lemma_cancel_returns_to_enabled(
    t: CashlessTaskModel,
    quiet: Seq<u8>,
    denial: Seq<u8>,
    ack: Seq<u8>,
)
    requires
        t.session != Session::Absent,
        t.session != Session::Initializing,
        t.activity == Activity::Sleeping,
        t.queue.len() == 0,
        t.pending == Some(CashlessDeviceCommand::CancelTransaction),
        poll_events(quiet).len() == 0,
        poll_events(denial) == seq![PollEvent::VendDenied],
    ensures
        ({
            let s1 = task_step(t, CashlessInputModel::Woke);
            let s2 = task_step(s1.0, CashlessInputModel::Reply(Ok(quiet)));
            let s3 = task_step(s2.0, CashlessInputModel::Reply(Ok(ack)));
            let s4 = task_step(s3.0, CashlessInputModel::Woke);
            let s5 = task_step(s4.0, CashlessInputModel::Reply(Ok(denial)));
            let s6 = task_step(s5.0, CashlessInputModel::Reply(Ok(ack)));
            &&& s1.1.action == CashlessAction::Transact(Frame::Poll)
            &&& t.session == Session::Starting || t.session == Session::Approved ==> s2.0.session
                == Session::Cancelling
            &&& s2.1.action == CashlessAction::Transact(Frame::VendCancel)
            &&& s3.1.action == (CashlessAction::Sleep { ms: POLL_INTERVAL_MS })
            &&& s4.1.action == CashlessAction::Transact(Frame::Poll)
            &&& s5.1.respond == Some(CashlessDeviceResponse::VendDenied)
            &&& s5.1.action == CashlessAction::Transact(Frame::SessionComplete)
            &&& s6.0.session == (if t.session == Session::Idle {
                Session::Idle
            } else {
                Session::Enabled
            })
            &&& s6.0.queue.len() == 0
            &&& s6.1.action == (CashlessAction::Sleep { ms: POLL_INTERVAL_MS })
        }),
{
    let s1 = task_step(t, CashlessInputModel::Woke);
    let s2 = task_step(s1.0, CashlessInputModel::Reply(Ok(quiet)));
    assert(poll_events(quiet) =~= Seq::<PollEvent>::empty());
    let start = CycleModel {
        session: t.session,
        queue: t.queue,
        publish: Seq::empty(),
        respond: None,
        fault: false,
    };
    lemma_on_events_single(start, PollEvent::VendDenied);
    assert(s2.0.queue =~= seq![Frame::VendCancel]);
    let s3 = task_step(s2.0, CashlessInputModel::Reply(Ok(ack)));
    assert(s3.0.queue =~= Seq::<Frame>::empty());
    let s4 = task_step(s3.0, CashlessInputModel::Woke);
    let again = CycleModel {
        session: s4.0.session,
        queue: s4.0.queue,
        publish: Seq::empty(),
        respond: None,
        fault: false,
    };
    lemma_on_events_single(again, PollEvent::VendDenied);
    let s5 = task_step(s4.0, CashlessInputModel::Reply(Ok(denial)));
    assert(s5.0.queue =~= seq![Frame::SessionComplete]);
    let s6 = task_step(s5.0, CashlessInputModel::Reply(Ok(ack)));
    assert(s6.0.queue =~= Seq::<Frame>::empty());
}

/// A session that the reader opens by itself is cancelled at once and never
/// published: the cancel frame is the first thing on the bus after the
/// poll, before the frames of any pending command and before a reset, the
/// session of the task is not opened by it, and the orchestrator hears
/// nothing.
pub proof fn lemma_speculative_session_is_cancelled(t: CashlessTaskModel, bytes: Seq<u8>, funds: u16)
    requires
        t.session == Session::Enabled,
        t.activity == Activity::Polling,
        t.queue.len() == 0,
        poll_events(bytes) == seq![PollEvent::BeginSession(funds)],
    ensures
        ({
            let step = task_step(t, CashlessInputModel::Reply(Ok(bytes)));
            &&& step.1.publish.len() == 0
            &&& step.1.respond is None
            &&& step.1.action == CashlessAction::Transact(Frame::VendCancel)
            &&& step.0.queue.len() >= 1 && step.0.queue[0] == Frame::VendCancel
            &&& t.pending is None ==> step.0.session == Session::Enabled
            &&& t.pending == Some(CashlessDeviceCommand::Reset) ==> step.0.queue == seq![
                Frame::VendCancel,
            ] + init_frames()
        }),
{
    let start = CycleModel {
        session: t.session,
        queue: t.queue,
        publish: Seq::empty(),
        respond: None,
        fault: false,
    };
    lemma_on_events_single(start, PollEvent::BeginSession(funds));
    let c = on_events(start, poll_events(bytes));
    assert(c.queue =~= seq![Frame::VendCancel]);
    match t.pending {
        Some(command) => {
            assert((c.queue + command_frames(command))[0] == Frame::VendCancel);
            assert((c.queue + init_frames())[0] == Frame::VendCancel);
        },
        None => {},
    }
}

/// A bus error loses the reader, whatever was under way: the session is
/// `Absent`, nothing is published, a command that is pending is answered
/// with `Unavailable` at once, and so is every command that comes while
/// the reader is absent, at the next look.
pub proof fn lemma_bus_error_loses_reader(
    t: CashlessTaskModel,
    error: BusError,
    command: CashlessDeviceCommand,
)
    ensures
        ({
            let lost = task_step(t, CashlessInputModel::Reply(Err(error)));
            let asked = CashlessTaskModel { pending: Some(command), ..lost.0 };
            let told = task_step(asked, CashlessInputModel::Woke);
            &&& lost.0.session == Session::Absent
            &&& lost.0.queue.len() == 0
            &&& lost.0.pending is None
            &&& lost.1.publish.len() == 0
            &&& lost.1.respond == look(t)
            &&& lost.1.action == (CashlessAction::Sleep { ms: ABSENT_CHECK_MS })
            &&& told.1.respond == Some(CashlessDeviceResponse::Unavailable)
            &&& told.1.action is Sleep
            &&& told.0.session == Session::Absent
            &&& told.0.pending is None
        }),
{
}

/// The time that an action lets pass before the next step, in milliseconds.
pub open spec fn sleep_ms(action: CashlessAction) -> int {
    match action {
        CashlessAction::Sleep { ms } => ms as int,
        CashlessAction::Transact(_) => 0,
    }
}

/// The reader is brought up again ten seconds after it was given up: the
/// step that gives it up and the nine wakes that follow each hand out a
/// sleep of one second, ten thousand milliseconds in all, and the tenth
/// wake sends the reset that starts the bring-up.
pub proof fn lemma_backoff_is_ten_seconds(t: CashlessTaskModel, error: BusError)
    ensures
        ({
            let woke = CashlessInputModel::Woke;
            let s0 = task_step(t, CashlessInputModel::Reply(Err(error)));
            let s1 = task_step(s0.0, woke);
            let s2 = task_step(s1.0, woke);
            let s3 = task_step(s2.0, woke);
            let s4 = task_step(s3.0, woke);
            let s5 = task_step(s4.0, woke);
            let s6 = task_step(s5.0, woke);
            let s7 = task_step(s6.0, woke);
            let s8 = task_step(s7.0, woke);
            let s9 = task_step(s8.0, woke);
            let s10 = task_step(s9.0, woke);
            &&& s0.1.action is Sleep && s1.1.action is Sleep && s2.1.action is Sleep
                && s3.1.action is Sleep && s4.1.action is Sleep && s5.1.action is Sleep
                && s6.1.action is Sleep && s7.1.action is Sleep && s8.1.action is Sleep
                && s9.1.action is Sleep
            &&& sleep_ms(s0.1.action) + sleep_ms(s1.1.action) + sleep_ms(s2.1.action) + sleep_ms(
                s3.1.action,
            ) + sleep_ms(s4.1.action) + sleep_ms(s5.1.action) + sleep_ms(s6.1.action) + sleep_ms(
                s7.1.action,
            ) + sleep_ms(s8.1.action) + sleep_ms(s9.1.action) == 10_000
            &&& s9.0.session == Session::Absent
            &&& s10.1.action == CashlessAction::Transact(Frame::Reset)
            &&& s10.0.session == Session::Initializing
        }),
{
    let woke = CashlessInputModel::Woke;
    let s0 = task_step(t, CashlessInputModel::Reply(Err(error)));
    let s1 = task_step(s0.0, woke);
    let s2 = task_step(s1.0, woke);
    let s3 = task_step(s2.0, woke);
    let s4 = task_step(s3.0, woke);
    let s5 = task_step(s4.0, woke);
    let s6 = task_step(s5.0, woke);
    let s7 = task_step(s6.0, woke);
    let s8 = task_step(s7.0, woke);
    let s9 = task_step(s8.0, woke);
    assert(s0.0.absent_checks == 9);
    assert(s1.0.absent_checks == 8);
    assert(s2.0.absent_checks == 7);
    assert(s3.0.absent_checks == 6);
    assert(s4.0.absent_checks == 5);
    assert(s5.0.absent_checks == 4);
    assert(s6.0.absent_checks == 3);
    assert(s7.0.absent_checks == 2);
    assert(s8.0.absent_checks == 1);
    assert(s9.0.absent_checks == 0 && s9.0.queue.len() == 0);
    assert(s9.0.queue + init_frames() =~= init_frames());
}

/// A malfunction, or a command that the reader found out of sequence, loses
/// the reader: the session is `Absent`, what the events before the fault
/// have queued still goes out, the pending command stays, and the task
/// brings the reader up again as soon as it wakes, without a backoff.
pub proof fn lemma_fault_loses_reader(t: CashlessTaskModel, bytes: Seq<u8>, i: int)
    requires
        t.activity == Activity::Polling,
        0 <= i < poll_events(bytes).len(),
        poll_events(bytes)[i] is Malfunction || poll_events(bytes)[i] is CmdOutOfSequence,
    ensures
        ({
            let c = on_events(
                CycleModel {
                    session: t.session,
                    queue: t.queue,
                    publish: Seq::empty(),
                    respond: None,
                    fault: false,
                },
                poll_events(bytes),
            );
            let lost = task_step(t, CashlessInputModel::Reply(Ok(bytes)));
            let again = task_step(lost.0, CashlessInputModel::Woke);
            &&& lost.0.session == Session::Absent
            &&& lost.0.absent_checks == 0
            &&& lost.0.pending == t.pending
            &&& lost.0.queue == c.queue
            &&& c.queue.len() > 0 ==> lost.1.action == CashlessAction::Transact(c.queue[0])
            &&& c.queue.len() == 0 ==> lost.1.action == (CashlessAction::Sleep { ms: 0 })
                && again.0.session == Session::Initializing && again.1.action
                == CashlessAction::Transact(Frame::Reset)
        }),
{
    let start = CycleModel {
        session: t.session,
        queue: t.queue,
        publish: Seq::empty(),
        respond: None,
        fault: false,
    };
    lemma_fault_sticks(start, poll_events(bytes), i);
    let lost = task_step(t, CashlessInputModel::Reply(Ok(bytes)));
    if lost.0.queue.len() == 0 {
        assert(lost.0.queue + init_frames() =~= init_frames());
    }
}

proof fn lemma_fault_sticks(c: CycleModel, events: Seq<PollEvent>, i: int)
    requires
        0 <= i < events.len(),
        events[i] is Malfunction || events[i] is CmdOutOfSequence,
    ensures
        on_events(c, events).fault,
    decreases events.len(),
{
    if i < events.len() - 1 {
        lemma_fault_sticks(c, events.drop_last(), i);
    }
}

/// Bringing the reader up takes four frames in order, reset, setup,
/// identification and enable; the reader is `Idle` once it has identified
/// itself and `Enabled` once it has acknowledged the last.
pub proof fn lemma_bring_up(t: CashlessTaskModel, ack: Seq<u8>)
    requires
        t.session == Session::Absent,
        t.activity == Activity::Sleeping,
        t.absent_checks == 0,
        t.queue.len() == 0,
    ensures
        ({
            let s1 = task_step(t, CashlessInputModel::Woke);
            let s2 = task_step(s1.0, CashlessInputModel::Reply(Ok(ack)));
            let s3 = task_step(s2.0, CashlessInputModel::Reply(Ok(ack)));
            let s4 = task_step(s3.0, CashlessInputModel::Reply(Ok(ack)));
            let s5 = task_step(s4.0, CashlessInputModel::Reply(Ok(ack)));
            &&& s1.1.action == CashlessAction::Transact(Frame::Reset)
            &&& s2.1.action == CashlessAction::Transact(Frame::Setup)
            &&& s3.1.action == CashlessAction::Transact(Frame::RequestId)
            &&& s4.1.action == CashlessAction::Transact(Frame::Enable)
            &&& s4.0.session == Session::Idle
            &&& s5.0.session == Session::Enabled
            &&& s5.1.action == (CashlessAction::Sleep { ms: POLL_INTERVAL_MS })
        }),
{
    let s1 = task_step(t, CashlessInputModel::Woke);
    assert(s1.0.queue =~= init_frames());
    let s2 = task_step(s1.0, CashlessInputModel::Reply(Ok(ack)));
    assert(s2.0.queue =~= seq![Frame::Setup, Frame::RequestId, Frame::Enable]);
    let s3 = task_step(s2.0, CashlessInputModel::Reply(Ok(ack)));
    assert(s3.0.queue =~= seq![Frame::RequestId, Frame::Enable]);
    let s4 = task_step(s3.0, CashlessInputModel::Reply(Ok(ack)));
    assert(s4.0.queue =~= seq![Frame::Enable]);
    let s5 = task_step(s4.0, CashlessInputModel::Reply(Ok(ack)));
    assert(s5.0.queue =~= Seq::<Frame>::empty());
}

} // verus!
