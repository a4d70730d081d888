//! The cashless reader: the commands it takes, the frames that carry them,
//! and what its poll replies mean.

use vstd::prelude::*;
use crate::dispenser::DispenserAddress;

verus! {

/// The commands of the cashless reader, in the lower three bits of the first
/// byte.
pub const CMD_RESET: u8 = 0x00;

pub const CMD_SETUP: u8 = 0x01;

pub const CMD_POLL: u8 = 0x02;

pub const CMD_VEND: u8 = 0x03;

/// The command that completes a session when it carries no data, and that
/// switches the reader on or off when it carries `READER_ENABLE` or
/// `READER_DISABLE`.
pub const CMD_SESSION: u8 = 0x04;

pub const CMD_EXPANSION: u8 = 0x07;

/// The sub-commands of `CMD_VEND`.
pub const VEND_REQUEST: u8 = 0x00;

pub const VEND_CANCEL: u8 = 0x01;

pub const VEND_SUCCESS: u8 = 0x02;

pub const VEND_FAILURE: u8 = 0x04;

pub const VEND_CASH_SALE: u8 = 0x05;

/// The data bytes of `CMD_SESSION` that switch the reader off and on.
pub const READER_DISABLE: u8 = 0x00;

pub const READER_ENABLE: u8 = 0x01;

/// The sub-command of `CMD_EXPANSION` that asks for the identification.
pub const EXPANSION_REQUEST_ID: u8 = 0x00;

/// The opcodes of a poll reply.
pub const POLL_BEGIN_SESSION: u8 = 0x03;

pub const POLL_SESSION_CANCEL: u8 = 0x04;

pub const POLL_VEND_APPROVED: u8 = 0x05;

pub const POLL_VEND_DENIED: u8 = 0x06;

pub const POLL_END_SESSION: u8 = 0x07;

pub const POLL_CANCELLED: u8 = 0x08;

pub const POLL_MALFUNCTION: u8 = 0x0A;

pub const POLL_OUT_OF_SEQUENCE: u8 = 0x0B;

/// What the orchestrator and the host ask of the reader.
#[derive(Clone, Copy, Debug, PartialEq, Eq, Structural)]
pub enum CashlessDeviceCommand {
    Reset,
    Enable,
    Disable,
    /// A sale that was paid in cash: the amount and the item.
    RecordCashTransaction(u16, DispenserAddress),
    /// Ask the reader to authorise this amount for this item.
    StartTransaction(u16, DispenserAddress),
    CancelTransaction,
    /// The item was delivered: settle.
    VendSuccess(DispenserAddress),
    /// The item was not delivered: refund.
    VendFailed,
}

/// What the host is told of the reader.
#[derive(Clone, Copy, Debug, PartialEq, Eq, Structural)]
pub enum CashlessDeviceEvent {
    Available,
    Unavailable,
    VendApproved(u16),
    VendDenied,
}

/// What the reader task answers to the orchestrator.
#[derive(Clone, Copy, Debug, PartialEq, Eq, Structural)]
pub enum CashlessDeviceResponse {
    Available,
    Unavailable,
    VendApproved(u16),
    VendDenied,
}

/// One item of a poll reply of the reader.
#[derive(Clone, Copy, Debug, PartialEq, Eq, Structural)]
pub enum PollEvent {
    /// The reader opened a session by itself, with these funds.
    BeginSession(u16),
    SessionCancelRequest,
    VendApproved(u16),
    VendDenied,
    EndSession,
    Cancelled,
    Malfunction(u8),
    CmdOutOfSequence,
}

/// A frame for the reader.
#[derive(Clone, Copy, Debug, PartialEq, Eq, Structural)]
pub enum Frame {
    Reset,
    Setup,
    RequestId,
    Poll,
    Enable,
    Disable,
    VendRequest(u16, DispenserAddress),
    VendCancel,
    VendSuccess(DispenserAddress),
    VendFailure,
    CashSale(u16, DispenserAddress),
    SessionComplete,
}

/// A character of an address as the byte that goes on the wire: its code,
/// cut to eight bits.
pub open spec fn wire_byte(c: char) -> u8 {
    (c as u32 & 0xFF) as u8
}

/// An amount as two bytes, high byte first.
pub open spec fn amount_bytes(amount: u16) -> Seq<u8> {
    seq![(amount >> 8) as u8, (amount & 0xFF) as u8]
}

/// The two bytes that name an item: its row and its column.
pub open spec fn item_bytes(a: DispenserAddress) -> Seq<u8> {
    seq![wire_byte(a.row), wire_byte(a.col)]
}

impl Frame {
    /// The command of the frame.
    pub open spec fn spec_command(self) -> u8 {
        match self {
            Frame::Reset => CMD_RESET,
            Frame::Setup => CMD_SETUP,
            Frame::RequestId => CMD_EXPANSION,
            Frame::Poll => CMD_POLL,
            Frame::Enable | Frame::Disable | Frame::SessionComplete => CMD_SESSION,
            _ => CMD_VEND,
        }
    }

    /// The data bytes of the frame.
    pub open spec fn spec_payload(self) -> Seq<u8> {
        match self {
            Frame::Reset | Frame::Setup | Frame::Poll | Frame::SessionComplete => Seq::empty(),
            Frame::RequestId => seq![EXPANSION_REQUEST_ID],
            Frame::Enable => seq![READER_ENABLE],
            Frame::Disable => seq![READER_DISABLE],
            Frame::VendRequest(amount, item) => seq![VEND_REQUEST] + amount_bytes(amount)
                + item_bytes(item),
            Frame::VendCancel => seq![VEND_CANCEL],
            Frame::VendSuccess(item) => seq![VEND_SUCCESS] + item_bytes(item),
            Frame::VendFailure => seq![VEND_FAILURE],
            Frame::CashSale(amount, item) => seq![VEND_CASH_SALE] + amount_bytes(amount)
                + item_bytes(item),
        }
    }

    /// The command of the frame.
    pub fn command(&self) -> (command: u8)
        ensures
            command == self.spec_command(),
    {
        match self {
            Frame::Reset => CMD_RESET,
            Frame::Setup => CMD_SETUP,
            Frame::RequestId => CMD_EXPANSION,
            Frame::Poll => CMD_POLL,
            Frame::Enable | Frame::Disable | Frame::SessionComplete => CMD_SESSION,
            _ => CMD_VEND,
        }
    }

    /// The data bytes of the frame.
    pub fn payload(&self) -> (payload: Vec<u8>)
        ensures
            payload@ == self.spec_payload(),
    {
        let mut payload: Vec<u8> = Vec::new();
        match self {
            Frame::Reset | Frame::Setup | Frame::Poll | Frame::SessionComplete => {},
            Frame::RequestId => {
                payload.push(EXPANSION_REQUEST_ID);
            },
            Frame::Enable => {
                payload.push(READER_ENABLE);
            },
            Frame::Disable => {
                payload.push(READER_DISABLE);
            },
            Frame::VendRequest(amount, item) => {
                payload.push(VEND_REQUEST);
                push_amount(&mut payload, *amount);
                push_item(&mut payload, *item);
            },
            Frame::VendCancel => {
                payload.push(VEND_CANCEL);
            },
            Frame::VendSuccess(item) => {
                payload.push(VEND_SUCCESS);
                push_item(&mut payload, *item);
            },
            Frame::VendFailure => {
                payload.push(VEND_FAILURE);
            },
            Frame::CashSale(amount, item) => {
                payload.push(VEND_CASH_SALE);
                push_amount(&mut payload, *amount);
                push_item(&mut payload, *item);
            },
        }
        proof {
            assert(payload@ =~= self.spec_payload());
        }
        payload
    }
}

fn push_amount(payload: &mut Vec<u8>, amount: u16)
    ensures
        final(payload)@ == old(payload)@ + amount_bytes(amount),
{
    proof {
        assert((amount >> 8) < 256 && (amount & 0xFF) < 256) by (bit_vector);
    }
    payload.push((amount >> 8) as u8);
    payload.push((amount & 0xFF) as u8);
    proof {
        assert(payload@ =~= old(payload)@ + amount_bytes(amount));
    }
}

fn push_item(payload: &mut Vec<u8>, item: DispenserAddress)
    ensures
        final(payload)@ == old(payload)@ + item_bytes(item),
{
    let row = item.row as u32;
    let col = item.col as u32;
    proof {
        assert((row & 0xFF) < 256 && (col & 0xFF) < 256) by (bit_vector);
    }
    payload.push((row & 0xFF) as u8);
    payload.push((col & 0xFF) as u8);
    proof {
        assert(payload@ =~= old(payload)@ + item_bytes(item));
    }
}

/// The bytes that an item of a poll takes, opcode included; zero for an
/// opcode that the table does not have.
pub open spec fn item_len(opcode: u8) -> int {
    if opcode == POLL_BEGIN_SESSION || opcode == POLL_VEND_APPROVED {
        3
    } else if opcode == POLL_MALFUNCTION {
        2
    } else if opcode == POLL_SESSION_CANCEL || opcode == POLL_VEND_DENIED || opcode
        == POLL_END_SESSION || opcode == POLL_CANCELLED || opcode == POLL_OUT_OF_SEQUENCE {
        1
    } else {
        0
    }
}

/// The item that stands at the head of some poll bytes.
pub open spec fn item_at(bytes: Seq<u8>) -> PollEvent
    recommends
        bytes.len() > 0,
        0 < item_len(bytes[0]) <= bytes.len(),
{
    let opcode = bytes[0];
    if opcode == POLL_BEGIN_SESSION {
        PollEvent::BeginSession((bytes[1] * 256 + bytes[2]) as u16)
    } else if opcode == POLL_VEND_APPROVED {
        PollEvent::VendApproved((bytes[1] * 256 + bytes[2]) as u16)
    } else if opcode == POLL_MALFUNCTION {
        PollEvent::Malfunction(bytes[1])
    } else if opcode == POLL_SESSION_CANCEL {
        PollEvent::SessionCancelRequest
    } else if opcode == POLL_VEND_DENIED {
        PollEvent::VendDenied
    } else if opcode == POLL_END_SESSION {
        PollEvent::EndSession
    } else if opcode == POLL_CANCELLED {
        PollEvent::Cancelled
    } else {
        PollEvent::CmdOutOfSequence
    }
}

/// The items of a poll reply, in order.
///
/// Each item opens with its opcode and takes the bytes that the opcode
/// calls for. Decoding ends at an opcode that the table does not have, and
/// at an item whose bytes are cut short.
pub open spec fn poll_events(bytes: Seq<u8>) -> Seq<PollEvent>
    decreases bytes.len(),
{
    if bytes.len() == 0 || item_len(bytes[0]) == 0 || item_len(bytes[0]) > bytes.len() {
        Seq::empty()
    } else {
        seq![item_at(bytes)] + poll_events(bytes.skip(item_len(bytes[0])))
    }
}

/// Decodes the activity bytes of one poll reply of the reader.
pub fn decode_poll(bytes: &Vec<u8>) -> (events: Vec<PollEvent>)
    ensures
        events@ == poll_events(bytes@),
{
    let mut events: Vec<PollEvent> = Vec::new();
    let mut i: usize = 0;
    proof {
        assert(bytes@.skip(0) =~= bytes@);
    }
    while i < bytes.len()
        invariant
            i <= bytes.len(),
            events@ + poll_events(bytes@.skip(i as int)) == poll_events(bytes@),
        decreases bytes.len() - i,
    {
        let opcode = bytes[i];
        let left = bytes.len() - i;
        let ghost rest = bytes@.skip(i as int);
        proof {
            assert(rest[0] == opcode);
            assert(rest.len() == left);
        }
        let len: usize = if opcode == POLL_BEGIN_SESSION || opcode == POLL_VEND_APPROVED {
            3
        } else if opcode == POLL_MALFUNCTION {
            2
        } else if opcode == POLL_SESSION_CANCEL || opcode == POLL_VEND_DENIED || opcode
            == POLL_END_SESSION || opcode == POLL_CANCELLED || opcode == POLL_OUT_OF_SEQUENCE {
            1
        } else {
            0
        };
        if len == 0 || len > left {
            proof {
                assert(poll_events(rest) =~= Seq::<PollEvent>::empty());
                assert(events@ + Seq::<PollEvent>::empty() =~= events@);
            }
            return events;
        }
        let event = if opcode == POLL_BEGIN_SESSION {
            proof {
                assert(rest[1] == bytes[i + 1] && rest[2] == bytes[i + 2]);
            }
            PollEvent::BeginSession(bytes[i + 1] as u16 * 256 + bytes[i + 2] as u16)
        } else if opcode == POLL_VEND_APPROVED {
            proof {
                assert(rest[1] == bytes[i + 1] && rest[2] == bytes[i + 2]);
            }
            PollEvent::VendApproved(bytes[i + 1] as u16 * 256 + bytes[i + 2] as u16)
        } else if opcode == POLL_MALFUNCTION {
            proof {
                assert(rest[1] == bytes[i + 1]);
            }
            PollEvent::Malfunction(bytes[i + 1])
        } else if opcode == POLL_SESSION_CANCEL {
            PollEvent::SessionCancelRequest
        } else if opcode == POLL_VEND_DENIED {
            PollEvent::VendDenied
        } else if opcode == POLL_END_SESSION {
            PollEvent::EndSession
        } else if opcode == POLL_CANCELLED {
            PollEvent::Cancelled
        } else {
            PollEvent::CmdOutOfSequence
        };
        let ghost before = events@;
        events.push(event);
        i = i + len;
        proof {
            assert(rest.skip(len as int) =~= bytes@.skip(i as int));
            assert(events@ + poll_events(bytes@.skip(i as int)) =~= before + (seq![event]
                + poll_events(rest.skip(len as int))));
        }
    }
    proof {
        assert(poll_events(bytes@.skip(i as int)) =~= Seq::<PollEvent>::empty());
        assert(events@ + Seq::<PollEvent>::empty() =~= events@);
    }
    events
}

/// What the host is told for an answer of the reader task.
pub open spec fn event_of(response: CashlessDeviceResponse) -> CashlessDeviceEvent {
    match response {
        CashlessDeviceResponse::Available => CashlessDeviceEvent::Available,
        CashlessDeviceResponse::Unavailable => CashlessDeviceEvent::Unavailable,
        CashlessDeviceResponse::VendApproved(amount) => CashlessDeviceEvent::VendApproved(amount),
        CashlessDeviceResponse::VendDenied => CashlessDeviceEvent::VendDenied,
    }
}

impl CashlessDeviceResponse {
    /// What the host is told for this answer.
    pub fn to_event(self) -> (event: CashlessDeviceEvent)
        ensures
            event == event_of(self),
    {
        match self {
            CashlessDeviceResponse::Available => CashlessDeviceEvent::Available,
            CashlessDeviceResponse::Unavailable => CashlessDeviceEvent::Unavailable,
            CashlessDeviceResponse::VendApproved(amount) => CashlessDeviceEvent::VendApproved(
                amount,
            ),
            CashlessDeviceResponse::VendDenied => CashlessDeviceEvent::VendDenied,
        }
    }
}

/// What the host makes of an event of the reader: an approval and a denial
/// are passed on, everything else is the task's own business.
pub open spec fn host_event_of(event: PollEvent) -> Option<CashlessDeviceEvent> {
    match event {
        PollEvent::VendApproved(amount) => Some(CashlessDeviceEvent::VendApproved(amount)),
        PollEvent::VendDenied => Some(CashlessDeviceEvent::VendDenied),
        _ => None,
    }
}

impl PollEvent {
    /// What the host makes of this event.
    pub fn to_host_event(self) -> (event: Option<CashlessDeviceEvent>)
        ensures
            event == host_event_of(self),
    {
        match self {
            PollEvent::VendApproved(amount) => Some(CashlessDeviceEvent::VendApproved(amount)),
            PollEvent::VendDenied => Some(CashlessDeviceEvent::VendDenied),
            _ => None,
        }
    }
}

} // verus!
