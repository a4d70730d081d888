//! The coin acceptor: what its poll replies mean, and the task that brings
//! it up, polls it, and publishes what it reports.
//!
//! The task is a state machine. Each step hands out one action, a bus
//! transaction or a sleep, together with the events to publish; the caller
//! performs the action and comes back with what happened.

use vstd::prelude::*;
use crate::mdb::BusError;

verus! {

/// The commands of the coin acceptor, in the lower three bits of the first byte.
pub const CMD_RESET: u8 = 0x00;

pub const CMD_SETUP: u8 = 0x01;

pub const CMD_TUBE_STATUS: u8 = 0x02;

pub const CMD_POLL: u8 = 0x03;

pub const CMD_COIN_TYPE: u8 = 0x04;

pub const CMD_EXPANSION: u8 = 0x07;

/// The sub-command of `CMD_EXPANSION` that asks for the identification.
pub const EXPANSION_IDENTIFICATION: u8 = 0x00;

/// The time between two polls, in milliseconds.
pub const POLL_INTERVAL_MS: u32 = 100;

/// The time before a failed acceptor is brought up again, in milliseconds.
pub const INIT_RETRY_INTERVAL_MS: u32 = 10_000;

/// The mask that accepts every coin type.
pub const ACCEPT_ALL: u16 = 0xFFFF;

/// The mask that accepts no coin.
pub const ACCEPT_NONE: u16 = 0x0000;

/// The bytes of a setup reply before the credit table: feature level,
/// country (two bytes), scaling factor, decimal places, coin routing (two
/// bytes).
pub const SETUP_HEADER_BYTES: usize = 7;

/// Where an accepted coin went.
#[derive(Clone, Copy, Debug, PartialEq, Eq, Structural)]
pub enum CoinRouting {
    CashBox,
    Tube,
    Reject,
    Unknown,
}

/// A coin that was inserted: its value in pence, and where it went.
#[derive(Clone, Copy, Debug, PartialEq, Eq, Structural)]
pub struct CoinInserted {
    pub value: u16,
    pub routing: CoinRouting,
}

/// A status that the acceptor reports in a poll.
#[derive(Clone, Copy, Debug, PartialEq, Eq, Structural)]
pub enum CoinAcceptorEvent {
    EscrowPressed,
    PayoutBusy,
    NoCredit,
    DefectiveTubeSensor,
    DoubleArrival,
    AcceptorUnplugged,
    TubeJam,
    RomChecksumError,
    CoinRoutingError,
    Busy,
    WasReset,
    CoinJam,
    AttemptedCoinRemoval,
    InvalidEvent,
}

/// The status that a status byte stands for.
pub open spec fn status_of(byte: u8) -> CoinAcceptorEvent {
    if byte == 0x01 {
        CoinAcceptorEvent::EscrowPressed
    } else if byte == 0x02 {
        CoinAcceptorEvent::PayoutBusy
    } else if byte == 0x03 {
        CoinAcceptorEvent::NoCredit
    } else if byte == 0x04 {
        CoinAcceptorEvent::DefectiveTubeSensor
    } else if byte == 0x05 {
        CoinAcceptorEvent::DoubleArrival
    } else if byte == 0x06 {
        CoinAcceptorEvent::AcceptorUnplugged
    } else if byte == 0x07 {
        CoinAcceptorEvent::TubeJam
    } else if byte == 0x08 {
        CoinAcceptorEvent::RomChecksumError
    } else if byte == 0x09 {
        CoinAcceptorEvent::CoinRoutingError
    } else if byte == 0x0A {
        CoinAcceptorEvent::Busy
    } else if byte == 0x0B {
        CoinAcceptorEvent::WasReset
    } else if byte == 0x0C {
        CoinAcceptorEvent::CoinJam
    } else {
        CoinAcceptorEvent::InvalidEvent
    }
}

impl From<u8> for CoinAcceptorEvent {
    fn from(byte: u8) -> (event: Self) {
        match byte {
            0x01 => CoinAcceptorEvent::EscrowPressed,
            0x02 => CoinAcceptorEvent::PayoutBusy,
            0x03 => CoinAcceptorEvent::NoCredit,
            0x04 => CoinAcceptorEvent::DefectiveTubeSensor,
            0x05 => CoinAcceptorEvent::DoubleArrival,
            0x06 => CoinAcceptorEvent::AcceptorUnplugged,
            0x07 => CoinAcceptorEvent::TubeJam,
            0x08 => CoinAcceptorEvent::RomChecksumError,
            0x09 => CoinAcceptorEvent::CoinRoutingError,
            0x0A => CoinAcceptorEvent::Busy,
            0x0B => CoinAcceptorEvent::WasReset,
            0x0C => CoinAcceptorEvent::CoinJam,
            _ => CoinAcceptorEvent::InvalidEvent,
        }
    }
}

impl vstd::std_specs::convert::FromSpecImpl<u8> for CoinAcceptorEvent {
    open spec fn obeys_from_spec() -> bool {
        true
    }

    open spec fn from_spec(byte: u8) -> Self {
        status_of(byte)
    }
}

/// What the application asks of the acceptor.
#[derive(Clone, Copy, Debug, PartialEq, Eq, Structural)]
pub enum CoinAcceptorDriverCommand {
    Enable,
    Disable,
}

/// One item of a poll reply.
#[derive(Clone, Copy, Debug, PartialEq, Eq, Structural)]
pub enum PollEvent {
    /// A status byte, as it came.
    Status(u8),
    /// A coin record, with the value that the setup table gives its slot.
    Coin(CoinInserted),
}

/// An event as it is published to the host.
#[derive(Clone, Copy, Debug, PartialEq, Eq, Structural)]
pub enum CoinEvent {
    Inserted(CoinInserted),
    Status(CoinAcceptorEvent),
}

/// An event with the sequence number under which it is published.
#[derive(Clone, Copy, Debug, PartialEq, Eq, Structural)]
pub struct Publication {
    pub seq: u16,
    pub event: CoinEvent,
}

/// What the acceptor told about itself in its setup reply.
#[derive(Clone, Copy, Debug, PartialEq, Eq)]
pub struct CoinSetup {
    pub feature_level: u8,
    pub country: u16,
    pub scaling_factor: u8,
    pub decimal_places: u8,
    pub coin_routing: u16,
    /// The credit of each of the sixteen coin types, in scaled units.
    pub credits: [u8; 16],
}

/// A setup as a value of the logic.
pub ghost struct CoinSetupModel {
    pub feature_level: u8,
    pub country: u16,
    pub scaling_factor: u8,
    pub decimal_places: u8,
    pub coin_routing: u16,
    pub credits: Seq<u8>,
}

impl CoinSetup {
    /// The setup as a value of the logic.
    pub open spec fn view(self) -> CoinSetupModel {
        CoinSetupModel {
            feature_level: self.feature_level,
            country: self.country,
            scaling_factor: self.scaling_factor,
            decimal_places: self.decimal_places,
            coin_routing: self.coin_routing,
            credits: self.credits@,
        }
    }

    /// A setup that knows no coin: every field zero.
    pub fn empty() -> (s: CoinSetup)
        ensures
            s@ == no_setup(),
    {
        let s = CoinSetup {
            feature_level: 0,
            country: 0,
            scaling_factor: 0,
            decimal_places: 0,
            coin_routing: 0,
            credits: [0, 0, 0, 0, 0, 0, 0, 0, 0, 0, 0, 0, 0, 0, 0, 0],
        };
        proof {
            assert(s.credits@ =~= no_setup().credits);
        }
        s
    }
}

/// The setup of an acceptor that has not been read yet.
pub open spec fn no_setup() -> CoinSetupModel {
    CoinSetupModel {
        feature_level: 0,
        country: 0,
        scaling_factor: 0,
        decimal_places: 0,
        coin_routing: 0,
        credits: Seq::new(16, |i: int| 0u8),
    }
}

/// What a setup reply says, where it is long enough to say it.
///
/// The credit table follows the seven header bytes; coin types that the
/// reply leaves out have no credit.
pub open spec fn setup_of(reply: Seq<u8>) -> Option<CoinSetupModel> {
    if reply.len() < SETUP_HEADER_BYTES {
        None
    } else {
        Some(
            CoinSetupModel {
                feature_level: reply[0],
                country: (reply[1] * 256 + reply[2]) as u16,
                scaling_factor: reply[3],
                decimal_places: reply[4],
                coin_routing: (reply[5] * 256 + reply[6]) as u16,
                credits: Seq::new(
                    16,
                    |i: int|
                        if SETUP_HEADER_BYTES + i < reply.len() {
                            reply[SETUP_HEADER_BYTES + i]
                        } else {
                            0u8
                        },
                ),
            },
        )
    }
}

/// Whether an activity byte opens a coin record: its upper two bits are 01.
pub open spec fn is_coin_header(byte: u8) -> bool {
    byte & 0xC0 == 0x40
}

/// Where the coin of a record went: bits 5 and 4 of its first byte.
pub open spec fn routing_of(header: u8) -> CoinRouting {
    let code = (header >> 4) & 0x03;
    if code == 0 {
        CoinRouting::CashBox
    } else if code == 1 {
        CoinRouting::Tube
    } else if code == 3 {
        CoinRouting::Reject
    } else {
        CoinRouting::Unknown
    }
}

/// The coin type of a record: the lower four bits of its first byte.
pub open spec fn slot_of(header: u8) -> int {
    (header & 0x0F) as int
}

/// The value of a coin in pence: the credit of its type times the scaling factor.
pub open spec fn coin_value(setup: CoinSetupModel, header: u8) -> u16
    recommends
        setup.credits.len() == 16,
{
    (setup.credits[slot_of(header)] * setup.scaling_factor) as u16
}

/// The items of a poll reply, in order.
///
/// A byte whose upper bits are 01 opens a coin record of two bytes, the
/// second being the count of that coin in its tube; every other byte is a
/// status. A coin record that lacks its second byte is dropped.
pub open spec fn poll_events(bytes: Seq<u8>, setup: CoinSetupModel) -> Seq<PollEvent>
    decreases bytes.len(),
{
    if bytes.len() == 0 {
        Seq::empty()
    } else if is_coin_header(bytes[0]) {
        if bytes.len() < 2 {
            Seq::empty()
        } else {
            seq![
                PollEvent::Coin(
                    CoinInserted {
                        value: coin_value(setup, bytes[0]),
                        routing: routing_of(bytes[0]),
                    },
                ),
            ] + poll_events(bytes.skip(2), setup)
        }
    } else {
        seq![PollEvent::Status(bytes[0])] + poll_events(bytes.skip(1), setup)
    }
}

/// The event that is published for an item of a poll.
pub open spec fn published_event(event: PollEvent) -> CoinEvent {
    match event {
        PollEvent::Status(byte) => CoinEvent::Status(status_of(byte)),
        PollEvent::Coin(coin) => CoinEvent::Inserted(coin),
    }
}

/// The publications for the items of one poll: one for each item, in
/// order, numbered from zero; the numbers wrap at sixteen bits.
pub open spec fn publications(events: Seq<PollEvent>) -> Seq<Publication> {
    Seq::new(
        events.len(),
        |i: int| Publication { seq: (i % 0x1_0000) as u16, event: published_event(events[i]) },
    )
}

/// The payload of the coin-type command: the accept mask, and the same mask
/// for manual dispensing, high byte first.
pub open spec fn coin_type_payload(mask: u16) -> Seq<u8> {
    seq![(mask >> 8) as u8, (mask & 0xFF) as u8, (mask >> 8) as u8, (mask & 0xFF) as u8]
}

/// The accept mask that a command asks for.
pub open spec fn mask_of(command: CoinAcceptorDriverCommand) -> u16 {
    match command {
        CoinAcceptorDriverCommand::Enable => ACCEPT_ALL,
        CoinAcceptorDriverCommand::Disable => ACCEPT_NONE,
    }
}

/// Reads a setup reply.
pub fn parse_setup(reply: &Vec<u8>) -> (r: Option<CoinSetup>)
    ensures
        r is Some == setup_of(reply@) is Some,
        r matches Some(s) ==> s@ == setup_of(reply@)->0,
{
    if reply.len() < SETUP_HEADER_BYTES {
        return None;
    }
    let mut credits: [u8; 16] = [0, 0, 0, 0, 0, 0, 0, 0, 0, 0, 0, 0, 0, 0, 0, 0];
    let mut i: usize = 0;
    while i < 16
        invariant
            i <= 16,
            reply.len() >= SETUP_HEADER_BYTES,
            forall|k: int|
                0 <= k < i ==> credits[k] == (if SETUP_HEADER_BYTES + k < reply.len() {
                    reply[SETUP_HEADER_BYTES + k]
                } else {
                    0u8
                }),
        decreases 16 - i,
    {
        if reply.len() - SETUP_HEADER_BYTES > i {
            credits[i] = reply[SETUP_HEADER_BYTES + i];
        } else {
            credits[i] = 0;
        }
        i = i + 1;
    }
    let s = CoinSetup {
        feature_level: reply[0],
        country: reply[1] as u16 * 256 + reply[2] as u16,
        scaling_factor: reply[3],
        decimal_places: reply[4],
        coin_routing: reply[5] as u16 * 256 + reply[6] as u16,
        credits,
    };
    proof {
        assert(s.credits@ =~= setup_of(reply@)->0.credits);
    }
    Some(s)
}

/// Where the coin of a record went.
pub fn coin_routing(header: u8) -> (routing: CoinRouting)
    ensures
        routing == routing_of(header),
{
    let code = (header >> 4) & 0x03;
    if code == 0 {
        CoinRouting::CashBox
    } else if code == 1 {
        CoinRouting::Tube
    } else if code == 3 {
        CoinRouting::Reject
    } else {
        CoinRouting::Unknown
    }
}

/// Decodes the activity bytes of one poll reply.
pub fn decode_poll(bytes: &Vec<u8>, setup: &CoinSetup) -> (events: Vec<PollEvent>)
    ensures
        events@ == poll_events(bytes@, setup@),
{
    let mut events: Vec<PollEvent> = Vec::new();
    let mut i: usize = 0;
    proof {
        assert(bytes@.skip(0) =~= bytes@);
    }
    while i < bytes.len()
        invariant
            i <= bytes.len(),
            events@ + poll_events(bytes@.skip(i as int), setup@) == poll_events(bytes@, setup@),
        decreases bytes.len() - i,
    {
        let header = bytes[i];
        let ghost rest = bytes@.skip(i as int);
        proof {
            assert(rest[0] == header);
        }
        if header & 0xC0 == 0x40 {
            if bytes.len() - i < 2 {
                proof {
                    assert(poll_events(rest, setup@) =~= Seq::<PollEvent>::empty());
                    assert(events@ + Seq::<PollEvent>::empty() =~= events@);
                }
                return events;
            }
            let slot = (header & 0x0F) as usize;
            proof {
                assert(header & 0x0F < 16) by (bit_vector);
            }
            let credit = setup.credits[slot];
            proof {
                assert(credit as int * setup.scaling_factor as int <= 255 * 255) by (nonlinear_arith)
                    requires
                        0 <= credit <= 255,
                        0 <= setup.scaling_factor <= 255,
                ;
            }
            let value: u16 = credit as u16 * setup.scaling_factor as u16;
            let coin = CoinInserted { value, routing: coin_routing(header) };
            let ghost before = events@;
            events.push(PollEvent::Coin(coin));
            i = i + 2;
            proof {
                assert(rest.skip(2) =~= bytes@.skip(i as int));
                assert(events@ + poll_events(bytes@.skip(i as int), setup@) =~= before + (
                seq![PollEvent::Coin(coin)] + poll_events(rest.skip(2), setup@)));
            }
        } else {
            let ghost before = events@;
            events.push(PollEvent::Status(header));
            i = i + 1;
            proof {
                assert(rest.skip(1) =~= bytes@.skip(i as int));
                assert(events@ + poll_events(bytes@.skip(i as int), setup@) =~= before + (
                seq![PollEvent::Status(header)] + poll_events(rest.skip(1), setup@)));
            }
        }
    }
    proof {
        assert(poll_events(bytes@.skip(i as int), setup@) =~= Seq::<PollEvent>::empty());
        assert(events@ + Seq::<PollEvent>::empty() =~= events@);
    }
    events
}

/// Turns the items of one poll into what is published: one publication for
/// each item, in order, numbered from zero.
pub fn coinacceptor_process_poll_events(events: &Vec<PollEvent>) -> (out: Vec<Publication>)
    ensures
        out@ == publications(events@),
{
    let mut out: Vec<Publication> = Vec::new();
    let mut seq: u16 = 0;
    let mut i: usize = 0;
    while i < events.len()
        invariant
            i <= events.len(),
            seq == i % 0x1_0000,
            out@ == publications(events@.take(i as int)),
        decreases events.len() - i,
    {
        let event = match events[i] {
            PollEvent::Status(byte) => CoinEvent::Status(CoinAcceptorEvent::from(byte)),
            PollEvent::Coin(coin) => CoinEvent::Inserted(coin),
        };
        out.push(Publication { seq, event });
        seq = if seq == u16::MAX {
            0
        } else {
            seq + 1
        };
        i = i + 1;
        proof {
            assert(out@ =~= publications(events@.take(i as int)));
        }
    }
    proof {
        assert(events@.take(i as int) =~= events@);
    }
    out
}

/// The payload of the coin-type command for an accept mask.
pub fn coin_type_bytes(mask: u16) -> (payload: Vec<u8>)
    ensures
        payload@ == coin_type_payload(mask),
{
    proof {
        assert((mask >> 8) < 256 && (mask & 0xFF) < 256) by (bit_vector);
    }
    let high = (mask >> 8) as u8;
    let low = (mask & 0xFF) as u8;
    let mut payload: Vec<u8> = Vec::new();
    payload.push(high);
    payload.push(low);
    payload.push(high);
    payload.push(low);
    proof {
        assert(payload@ =~= coin_type_payload(mask));
    }
    payload
}

/// A step of bringing the acceptor up.
#[derive(Clone, Copy, Debug, PartialEq, Eq, Structural)]
pub enum InitStep {
    Reset,
    Setup,
    TubeStatus,
    Identification,
    Disable,
}

/// Where the task stands.
#[derive(Clone, Copy, Debug, PartialEq, Eq, Structural)]
pub enum CoinState {
    /// No acceptor is known; the task sleeps until it tries again.
    Absent,
    /// The answer to a step of the bring-up is awaited.
    Initializing(InitStep),
    /// The acceptor is up; the task sleeps until the next poll.
    Ready,
    /// The answer to a new accept mask is awaited.
    Commanding,
    /// The answer to a poll is awaited.
    Polling,
}

/// What happened since the last step.
#[derive(Debug, PartialEq, Eq)]
pub enum CoinInput {
    /// The sleep has passed, or the task has just been started.
    Woke,
    /// The bus transaction has ended.
    Reply(Result<Vec<u8>, BusError>),
}

/// What the task asks for next.
#[derive(Clone, Debug, PartialEq, Eq)]
pub enum CoinAction {
    /// One transaction with the coin acceptor.
    Transact { command: u8, payload: Vec<u8> },
    /// Nothing for this long.
    Sleep { ms: u32 },
}

/// The result of one step: events to publish, then an action.
#[derive(Clone, Debug, PartialEq, Eq)]
pub struct CoinOutput {
    pub publish: Vec<Publication>,
    pub action: CoinAction,
}

/// The task of the coin acceptor.
#[derive(Clone, Copy, Debug, PartialEq, Eq)]
pub struct CoinAcceptorTask {
    pub state: CoinState,
    pub setup: CoinSetup,
    /// The command of the application that has not been applied yet.
    pub pending: Option<CoinAcceptorDriverCommand>,
}

/// An input as a value of the logic.
pub ghost enum CoinInputModel {
    Woke,
    Reply(Result<Seq<u8>, BusError>),
}

/// An action as a value of the logic.
pub ghost enum CoinActionModel {
    Transact { command: u8, payload: Seq<u8> },
    Sleep { ms: u32 },
}

/// The result of a step as a value of the logic.
pub ghost struct CoinOutputModel {
    pub publish: Seq<Publication>,
    pub action: CoinActionModel,
}

/// The task as a value of the logic.
pub ghost struct CoinTaskModel {
    pub state: CoinState,
    pub setup: CoinSetupModel,
    pub pending: Option<CoinAcceptorDriverCommand>,
}

impl CoinInput {
    pub open spec fn view(self) -> CoinInputModel {
        match self {
            CoinInput::Woke => CoinInputModel::Woke,
            CoinInput::Reply(r) => CoinInputModel::Reply(crate::mdb::payload_view(r)),
        }
    }
}

impl CoinAction {
    pub open spec fn view(self) -> CoinActionModel {
        match self {
            CoinAction::Transact { command, payload } => CoinActionModel::Transact {
                command,
                payload: payload@,
            },
            CoinAction::Sleep { ms } => CoinActionModel::Sleep { ms },
        }
    }
}

impl CoinOutput {
    pub open spec fn view(self) -> CoinOutputModel {
        CoinOutputModel { publish: self.publish@, action: self.action@ }
    }
}

/// A step that publishes nothing and asks for one transaction.
pub open spec fn transact(
    t: CoinTaskModel,
    state: CoinState,
    command: u8,
    payload: Seq<u8>,
) -> (CoinTaskModel, CoinOutputModel) {
    (
        CoinTaskModel { state, ..t },
        CoinOutputModel {
            publish: Seq::empty(),
            action: CoinActionModel::Transact { command, payload },
        },
    )
}

/// The step that gives the acceptor up for now: nothing is published, the
/// task is `Absent` and sleeps until the next attempt.
pub open spec fn give_up(t: CoinTaskModel) -> (CoinTaskModel, CoinOutputModel) {
    (
        CoinTaskModel { state: CoinState::Absent, ..t },
        CoinOutputModel {
            publish: Seq::empty(),
            action: CoinActionModel::Sleep { ms: INIT_RETRY_INTERVAL_MS },
        },
    )
}

/// What follows the reply to a step of the bring-up.
///
/// The steps run in order: reset, setup, tube status, identification for an
/// acceptor of level three or above, and a coin-type command that accepts no
/// coin. After the last the acceptor is `Ready`. A bus error, or a setup
/// reply that is too short, gives the acceptor up.
pub open spec fn init_step(t: CoinTaskModel, step: InitStep, reply: Result<Seq<u8>, BusError>) -> (
    CoinTaskModel,
    CoinOutputModel,
) {
    match reply {
        Err(_) => give_up(t),
        Ok(bytes) => match step {
            InitStep::Reset => transact(
                t,
                CoinState::Initializing(InitStep::Setup),
                CMD_SETUP,
                Seq::empty(),
            ),
            InitStep::Setup => match setup_of(bytes) {
                Some(setup) => transact(
                    CoinTaskModel { setup, ..t },
                    CoinState::Initializing(InitStep::TubeStatus),
                    CMD_TUBE_STATUS,
                    Seq::empty(),
                ),
                None => give_up(t),
            },
            InitStep::TubeStatus => if t.setup.feature_level >= 3 {
                transact(
                    t,
                    CoinState::Initializing(InitStep::Identification),
                    CMD_EXPANSION,
                    seq![EXPANSION_IDENTIFICATION],
                )
            } else {
                transact(
                    t,
                    CoinState::Initializing(InitStep::Disable),
                    CMD_COIN_TYPE,
                    coin_type_payload(ACCEPT_NONE),
                )
            },
            InitStep::Identification => transact(
                t,
                CoinState::Initializing(InitStep::Disable),
                CMD_COIN_TYPE,
                coin_type_payload(ACCEPT_NONE),
            ),
            InitStep::Disable => (
                CoinTaskModel { state: CoinState::Ready, ..t },
                CoinOutputModel {
                    publish: Seq::empty(),
                    action: CoinActionModel::Sleep { ms: POLL_INTERVAL_MS },
                },
            ),
        },
    }
}

/// One step of the task.
///
/// An absent acceptor is brought up when the task wakes. A ready acceptor
/// is polled when the task wakes, after a pending command of the
/// application has been applied. The reply to a poll is decoded and
/// published, and the task sleeps until the next poll. A bus error, or an
/// input that the state does not expect, gives the acceptor up.
pub open spec fn task_step(t: CoinTaskModel, input: CoinInputModel) -> (
    CoinTaskModel,
    CoinOutputModel,
) {
    match (t.state, input) {
        (CoinState::Absent, CoinInputModel::Woke) => transact(
            t,
            CoinState::Initializing(InitStep::Reset),
            CMD_RESET,
            Seq::empty(),
        ),
        (CoinState::Initializing(step), CoinInputModel::Reply(reply)) => init_step(t, step, reply),
        (CoinState::Ready, CoinInputModel::Woke) => match t.pending {
            Some(command) => transact(
                CoinTaskModel { pending: None, ..t },
                CoinState::Commanding,
                CMD_COIN_TYPE,
                coin_type_payload(mask_of(command)),
            ),
            None => transact(t, CoinState::Polling, CMD_POLL, Seq::empty()),
        },
        (CoinState::Commanding, CoinInputModel::Reply(Ok(_))) => transact(
            t,
            CoinState::Polling,
            CMD_POLL,
            Seq::empty(),
        ),
        (CoinState::Polling, CoinInputModel::Reply(Ok(bytes))) => (
            CoinTaskModel { state: CoinState::Ready, ..t },
            CoinOutputModel {
                publish: publications(poll_events(bytes, t.setup)),
                action: CoinActionModel::Sleep { ms: POLL_INTERVAL_MS },
            },
        ),
        _ => give_up(t),
    }
}

impl CoinAcceptorTask {
    /// The task as a value of the logic.
    pub open spec fn view(self) -> CoinTaskModel {
        CoinTaskModel { state: self.state, setup: self.setup@, pending: self.pending }
    }

    /// A task that knows no acceptor yet and has no command pending.
    pub fn new() -> (task: CoinAcceptorTask)
        ensures
            task@ == (CoinTaskModel {
                state: CoinState::Absent,
                setup: no_setup(),
                pending: None,
            }),
    {
        CoinAcceptorTask { state: CoinState::Absent, setup: CoinSetup::empty(), pending: None }
    }

    fn transact(&mut self, state: CoinState, command: u8, payload: Vec<u8>) -> (out: CoinOutput)
        ensures
            (final(self)@, out@) == transact(old(self)@, state, command, payload@),
    {
        self.state = state;
        CoinOutput { publish: Vec::new(), action: CoinAction::Transact { command, payload } }
    }

    fn give_up(&mut self) -> (out: CoinOutput)
        ensures
            (final(self)@, out@) == give_up(old(self)@),
    {
        self.state = CoinState::Absent;
        CoinOutput { publish: Vec::new(), action: CoinAction::Sleep { ms: INIT_RETRY_INTERVAL_MS } }
    }
}

/// Takes the reply to a step of the bring-up and says what follows.
pub fn coin_acceptor_try_init(
    task: &mut CoinAcceptorTask,
    step: InitStep,
    reply: Result<Vec<u8>, BusError>,
) -> (out: CoinOutput)
    ensures
        (final(task)@, out@) == init_step(old(task)@, step, crate::mdb::payload_view(reply)),
{
    let bytes = match reply {
        Err(_) => {
            return task.give_up();
        },
        Ok(bytes) => bytes,
    };
    match step {
        InitStep::Reset => task.transact(
            CoinState::Initializing(InitStep::Setup),
            CMD_SETUP,
            Vec::new(),
        ),
        InitStep::Setup => match parse_setup(&bytes) {
            Some(setup) => {
                task.setup = setup;
                task.transact(
                    CoinState::Initializing(InitStep::TubeStatus),
                    CMD_TUBE_STATUS,
                    Vec::new(),
                )
            },
            None => task.give_up(),
        },
        InitStep::TubeStatus => if task.setup.feature_level >= 3 {
            let mut payload: Vec<u8> = Vec::new();
            payload.push(EXPANSION_IDENTIFICATION);
            proof {
                assert(payload@ =~= seq![EXPANSION_IDENTIFICATION]);
            }
            task.transact(CoinState::Initializing(InitStep::Identification), CMD_EXPANSION, payload)
        } else {
            task.transact(
                CoinState::Initializing(InitStep::Disable),
                CMD_COIN_TYPE,
                coin_type_bytes(ACCEPT_NONE),
            )
        },
        InitStep::Identification => task.transact(
            CoinState::Initializing(InitStep::Disable),
            CMD_COIN_TYPE,
            coin_type_bytes(ACCEPT_NONE),
        ),
        InitStep::Disable => {
            task.state = CoinState::Ready;
            CoinOutput { publish: Vec::new(), action: CoinAction::Sleep { ms: POLL_INTERVAL_MS } }
        },
    }
}

/// One step of the task: takes what happened and says what to publish and
/// what to do next.
pub fn coin_acceptor_task(task: &mut CoinAcceptorTask, input: CoinInput) -> (out: CoinOutput)
    ensures
        (final(task)@, out@) == task_step(old(task)@, input@),
{
    match (task.state, input) {
        (CoinState::Absent, CoinInput::Woke) => task.transact(
            CoinState::Initializing(InitStep::Reset),
            CMD_RESET,
            Vec::new(),
        ),
        (CoinState::Initializing(step), CoinInput::Reply(reply)) => coin_acceptor_try_init(
            task,
            step,
            reply,
        ),
        (CoinState::Ready, CoinInput::Woke) => match task.pending {
            Some(command) => {
                let mask = match command {
                    CoinAcceptorDriverCommand::Enable => ACCEPT_ALL,
                    CoinAcceptorDriverCommand::Disable => ACCEPT_NONE,
                };
                task.pending = None;
                task.transact(CoinState::Commanding, CMD_COIN_TYPE, coin_type_bytes(mask))
            },
            None => task.transact(CoinState::Polling, CMD_POLL, Vec::new()),
        },
        (CoinState::Commanding, CoinInput::Reply(Ok(_))) => task.transact(
            CoinState::Polling,
            CMD_POLL,
            Vec::new(),
        ),
        (CoinState::Polling, CoinInput::Reply(Ok(bytes))) => {
            let events = decode_poll(&bytes, &task.setup);
            let publish = coinacceptor_process_poll_events(&events);
            task.state = CoinState::Ready;
            CoinOutput { publish, action: CoinAction::Sleep { ms: POLL_INTERVAL_MS } }
        },
        _ => task.give_up(),
    }
}

/// Records what the application asks of the acceptor; the task applies it
/// before its next poll. A later command replaces one that is still
/// pending.
pub fn set_coin_acceptor_enabled(task: &mut CoinAcceptorTask, enable: bool)
    ensures
        final(task)@ == (CoinTaskModel {
            pending: Some(
                if enable {
                    CoinAcceptorDriverCommand::Enable
                } else {
                    CoinAcceptorDriverCommand::Disable
                },
            ),
            ..old(task)@
        }),
{
    task.pending = Some(
        if enable {
            CoinAcceptorDriverCommand::Enable
        } else {
            CoinAcceptorDriverCommand::Disable
        },
    );
}

/// Whether an item of a poll is a coin.
pub open spec fn is_coin(event: PollEvent) -> bool {
    event is Coin
}

/// The coin records among the activity bytes of a poll: the number of
/// bytes that open a record whose second byte is there.
pub open spec fn coin_records(bytes: Seq<u8>) -> nat
    decreases bytes.len(),
{
    if bytes.len() == 0 {
        0
    } else if is_coin_header(bytes[0]) {
        if bytes.len() < 2 {
            0
        } else {
            1 + coin_records(bytes.skip(2))
        }
    } else {
        coin_records(bytes.skip(1))
    }
}

/// The coins among published events.
pub open spec fn coins_published(out: Seq<Publication>) -> nat
    decreases out.len(),
{
    if out.len() == 0 {
        0
    } else {
        coins_published(out.drop_first()) + (if out[0].event is Inserted {
            1nat
        } else {
            0nat
        })
    }
}

/// Every item of a poll is published once, in order: a coin as the coin
/// that was decoded, a status as the status that its byte stands for.
pub proof fn lemma_publications_follow_poll(events: Seq<PollEvent>)
    ensures
        publications(events).len() == events.len(),
        forall|i: int|
            0 <= i < events.len() ==> (#[trigger] publications(events)[i]).event
                == published_event(events[i]),
        forall|i: int|
            0 <= i < events.len() ==> ((#[trigger] publications(events)[i]).event is Inserted
                <==> events[i] is Coin),
        forall|i: int|
            0 <= i < events.len() && events[i] is Coin ==> (#[trigger] publications(
                events,
            )[i]).event == CoinEvent::Inserted(events[i]->Coin_0),
{
}

/// The coins that one poll publishes are as many as the coin records that
/// its reply holds: one event for each record, and none for a status byte.
pub proof fn lemma_one_coin_event_per_record(bytes: Seq<u8>, setup: CoinSetupModel)
    ensures
        coins_published(publications(poll_events(bytes, setup))) == coin_records(bytes),
    decreases bytes.len(),
{
    let events = poll_events(bytes, setup);
    if bytes.len() == 0 {
    } else if is_coin_header(bytes[0]) {
        if bytes.len() >= 2 {
            lemma_one_coin_event_per_record(bytes.skip(2), setup);
            lemma_coins_published_shift(events);
            assert(events.drop_first() =~= poll_events(bytes.skip(2), setup));
        }
    } else {
        lemma_one_coin_event_per_record(bytes.skip(1), setup);
        lemma_coins_published_shift(events);
        assert(events.drop_first() =~= poll_events(bytes.skip(1), setup));
    }
}

/// The coins among the publications of a poll do not depend on the
/// numbers under which they are published.
proof fn lemma_coins_published_shift(events: Seq<PollEvent>)
    requires
        events.len() > 0,
    ensures
        coins_published(publications(events)) == coins_published(
            publications(events.drop_first()),
        ) + (if events[0] is Coin {
            1nat
        } else {
            0nat
        }),
{
    lemma_coins_ignore_numbers(
        publications(events).drop_first(),
        publications(events.drop_first()),
    );
}

proof fn lemma_coins_ignore_numbers(a: Seq<Publication>, b: Seq<Publication>)
    requires
        a.len() == b.len(),
        forall|i: int| 0 <= i < a.len() ==> a[i].event == b[i].event,
    ensures
        coins_published(a) == coins_published(b),
    decreases a.len(),
{
    if a.len() > 0 {
        lemma_coins_ignore_numbers(a.drop_first(), b.drop_first());
    }
}

/// A bus error gives the acceptor up, whatever was under way: the task is
/// `Absent`, publishes nothing, and sleeps ten seconds before it brings the
/// acceptor up again.
pub proof fn lemma_bus_error_gives_up(t: CoinTaskModel, error: BusError)
    ensures
        task_step(t, CoinInputModel::Reply(Err(error))).0.state == CoinState::Absent,
        task_step(t, CoinInputModel::Reply(Err(error))).1.publish.len() == 0,
        task_step(t, CoinInputModel::Reply(Err(error))).1.action == (CoinActionModel::Sleep {
            ms: 10_000,
        }),
        task_step(task_step(t, CoinInputModel::Reply(Err(error))).0, CoinInputModel::Woke).1.action
            == (CoinActionModel::Transact { command: CMD_RESET, payload: Seq::empty() }),
{
}

} // verus!
