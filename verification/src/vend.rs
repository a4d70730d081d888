//! The vend orchestrator: one request of the host is taken through the
//! look-up of its dispenser, the pre-dispense check, the payment, the
//! dispense and the settlement, and answered with exactly one outcome.
//!
//! The orchestrator is a state machine. Each step hands out one action: a
//! status query, a payment to wait for, a dispense, or the reply that ends
//! the vend. The caller performs it and comes back with the result.

use vstd::prelude::*;
use crate::cashless_device::{CashlessDeviceCommand, CashlessDeviceResponse};
use crate::coin_acceptor::CoinAcceptorEvent;
use crate::dispenser::{Dispenser, DispenserAddress, VendCommand, VendError};
use crate::motor_driver::{dispensable, dispenser_wf, MotorDriver};

verus! {

/// How long the orchestrator waits for the reader to decide, in milliseconds.
pub const PAYMENT_TIMEOUT_MS: u32 = 30_000;

/// How a vend was paid.
#[derive(Clone, Copy, Debug, PartialEq, Eq, Structural)]
pub enum PaymentType {
    /// Paid in coins: the amount received.
    Cash(u16),
    /// Paid by card: the amount authorised.
    Card(u16),
}

/// Why a vend was not paid.
#[derive(Clone, Copy, Debug, PartialEq, Eq, Structural)]
pub enum PaymentError {
    /// The customer asked for the coins back.
    Cancelled,
    Denied,
    TimedOut,
    /// The reader gave an answer that is none to a vend request.
    DeviceFault,
    NoPaymentDevice,
    /// The reader approved another amount than was asked for.
    AmountMismatch,
}

/// What ended the wait for the payment.
#[derive(Clone, Copy, Debug, PartialEq, Eq, Structural)]
pub enum PaymentEvent {
    /// The reader task answered.
    Response(CashlessDeviceResponse),
    /// Nothing came within `PAYMENT_TIMEOUT_MS`.
    TimedOut,
    /// The coin acceptor reported its escrow lever.
    EscrowPressed,
}

/// Where a vend stands.
#[derive(Clone, Copy, Debug, PartialEq, Eq, Structural)]
pub enum VendState {
    /// The status query of the dispenser is under way.
    Lookup,
    /// The reader was asked to authorise the price.
    AwaitingPayment,
    /// The dispenser runs.
    Dispensing,
    /// The host has its answer.
    Done,
}

/// What the caller reports to the orchestrator.
#[derive(Clone, Copy, Debug, PartialEq, Eq)]
pub enum VendInput {
    /// The status query has ended with this dispenser, or with none.
    Lookup(Option<Dispenser>),
    /// The wait for the payment has ended.
    Payment(PaymentEvent),
    /// The dispense cycle has ended.
    Dispensed(Result<(), VendError>),
}

/// What the orchestrator asks for next.
#[derive(Clone, Copy, Debug, PartialEq, Eq)]
pub enum VendAction {
    /// Run a status query at this address.
    QueryDispenser(DispenserAddress),
    /// Clear the answer of the reader task, hand it this request, and wait
    /// for its answer, for the escrow lever, or for the time to run out.
    AwaitPayment { request: CashlessDeviceCommand, timeout_ms: u32 },
    /// Run a dispense cycle at this address.
    Dispense { address: DispenserAddress, omit_checks: bool },
    /// Hand this command, if any, to the reader task, and answer the host.
    Reply { command: Option<CashlessDeviceCommand>, outcome: Result<(), VendError> },
    /// Nothing: the report was none that the vend waits for.
    Ignore,
}

/// A vend in progress.
#[derive(Clone, Copy, Debug, PartialEq, Eq, Structural)]
pub struct Vend {
    pub command: VendCommand,
    /// A forced dispense: no check, no payment, no settlement.
    pub forced: bool,
    pub state: VendState,
    /// The address of the dispenser, once it was found.
    pub address: DispenserAddress,
}

/// What the end of the wait for a payment of `amount` amounts to.
pub open spec fn payment_of(amount: u16, event: PaymentEvent) -> Result<PaymentType, PaymentError> {
    match event {
        PaymentEvent::Response(CashlessDeviceResponse::VendApproved(authorised)) => if authorised
            == amount {
            Ok(PaymentType::Card(amount))
        } else {
            Err(PaymentError::AmountMismatch)
        },
        PaymentEvent::Response(CashlessDeviceResponse::VendDenied) => Err(PaymentError::Denied),
        PaymentEvent::Response(CashlessDeviceResponse::Unavailable) => Err(
            PaymentError::NoPaymentDevice,
        ),
        PaymentEvent::Response(CashlessDeviceResponse::Available) => Err(PaymentError::DeviceFault),
        PaymentEvent::TimedOut => Err(PaymentError::TimedOut),
        PaymentEvent::EscrowPressed => Err(PaymentError::Cancelled),
    }
}

/// Whether the reader may still hold a vend request after this failure, so
/// that it has to be told to cancel.
pub open spec fn leaves_request_open(error: PaymentError) -> bool {
    error == PaymentError::AmountMismatch || error == PaymentError::TimedOut || error
        == PaymentError::Cancelled
}

/// What the host is told for a payment that failed: `Cancelled` where the
/// customer withdrew, `PaymentFailed` in every other case.
pub open spec fn outcome_of(error: PaymentError) -> VendError {
    if error == PaymentError::Cancelled {
        VendError::Cancelled
    } else {
        VendError::PaymentFailed
    }
}

/// The step that ends a vend.
pub open spec fn reply(v: Vend, command: Option<CashlessDeviceCommand>, outcome: Result<(), VendError>) -> (
    Vend,
    VendAction,
) {
    (Vend { state: VendState::Done, ..v }, VendAction::Reply { command, outcome })
}

/// The first step of a vend: the status query of its dispenser.
pub open spec fn vend_begin(command: VendCommand, forced: bool) -> (Vend, VendAction) {
    (
        Vend { command, forced, state: VendState::Lookup, address: command.spec_address() },
        VendAction::QueryDispenser(command.spec_address()),
    )
}

/// One step of a vend.
///
/// No dispenser at the address: `InvalidAddress`. A dispenser that
/// may not dispense: its failure, and no payment is asked for. Else the
/// reader is asked to authorise the price. An approval of the price starts
/// the dispense, without checks, for they have passed; every other end of
/// the wait fails the vend, and cancels the request where the reader may
/// still hold it. The dispense decides the rest: `VendSuccess` and `Ok`, or
/// `VendFailed` and the error of the dispenser, unchanged. A forced dispense
/// goes from the look-up straight to the dispense and settles nothing.
pub open spec fn vend_step(v: Vend, input: VendInput) -> (Vend, VendAction)
    recommends
        input matches VendInput::Lookup(Some(d)) ==> dispenser_wf(d),
{
    match (v.state, input) {
        (VendState::Lookup, VendInput::Lookup(None)) => reply(
            v,
            None,
            Err(VendError::InvalidAddress),
        ),
        (VendState::Lookup, VendInput::Lookup(Some(d))) => {
            if v.forced {
                (
                    Vend { state: VendState::Dispensing, address: d.address, ..v },
                    VendAction::Dispense { address: d.address, omit_checks: true },
                )
            } else {
                match dispensable(d) {
                    Err(e) => reply(v, None, Err(e)),
                    Ok(_) => (
                        Vend { state: VendState::AwaitingPayment, address: d.address, ..v },
                        VendAction::AwaitPayment {
                            request: CashlessDeviceCommand::StartTransaction(
                                v.command.price,
                                d.address,
                            ),
                            timeout_ms: PAYMENT_TIMEOUT_MS,
                        },
                    ),
                }
            }
        },
        (VendState::AwaitingPayment, VendInput::Payment(event)) => match payment_of(
            v.command.price,
            event,
        ) {
            Ok(_) => (
                Vend { state: VendState::Dispensing, ..v },
                VendAction::Dispense { address: v.address, omit_checks: true },
            ),
            Err(e) => reply(
                v,
                if leaves_request_open(e) {
                    Some(CashlessDeviceCommand::CancelTransaction)
                } else {
                    None
                },
                Err(outcome_of(e)),
            ),
        },
        (VendState::Dispensing, VendInput::Dispensed(result)) => {
            if v.forced {
                reply(v, None, result)
            } else {
                reply(
                    v,
                    Some(
                        if result is Ok {
                            CashlessDeviceCommand::VendSuccess(v.address)
                        } else {
                            CashlessDeviceCommand::VendFailed
                        },
                    ),
                    result,
                )
            }
        },
        _ => (v, VendAction::Ignore),
    }
}

/// What a status of the coin acceptor means to a vend that waits for its
/// payment: the escrow lever withdraws the payment, every other status
/// leaves the wait alone.
pub open spec fn payment_event_of(status: CoinAcceptorEvent) -> Option<PaymentEvent> {
    if status == CoinAcceptorEvent::EscrowPressed {
        Some(PaymentEvent::EscrowPressed)
    } else {
        None
    }
}

/// Decides whether a status of the coin acceptor ends the wait for a
/// payment, and how.
pub fn coin_status_payment_event(status: CoinAcceptorEvent) -> (event: Option<PaymentEvent>)
    ensures
        event == payment_event_of(status),
{
    match status {
        CoinAcceptorEvent::EscrowPressed => Some(PaymentEvent::EscrowPressed),
        _ => None,
    }
}

/// Decides what the end of the wait for a payment of `amount` amounts to.
pub fn collect_payment(amount: u16, event: PaymentEvent) -> (r: Result<PaymentType, PaymentError>)
    ensures
        r == payment_of(amount, event),
{
    match event {
        PaymentEvent::Response(CashlessDeviceResponse::VendApproved(authorised)) => {
            if authorised == amount {
                Ok(PaymentType::Card(amount))
            } else {
                Err(PaymentError::AmountMismatch)
            }
        },
        PaymentEvent::Response(CashlessDeviceResponse::VendDenied) => Err(PaymentError::Denied),
        PaymentEvent::Response(CashlessDeviceResponse::Unavailable) => Err(
            PaymentError::NoPaymentDevice,
        ),
        PaymentEvent::Response(CashlessDeviceResponse::Available) => Err(PaymentError::DeviceFault),
        PaymentEvent::TimedOut => Err(PaymentError::TimedOut),
        PaymentEvent::EscrowPressed => Err(PaymentError::Cancelled),
    }
}

/// The command that tells the reader task that the item was delivered.
pub fn vend_success(addr: DispenserAddress) -> (command: CashlessDeviceCommand)
    ensures
        command == CashlessDeviceCommand::VendSuccess(addr),
{
    CashlessDeviceCommand::VendSuccess(addr)
}

/// The command that tells the reader task that the item was not delivered.
pub fn vend_failed() -> (command: CashlessDeviceCommand)
    ensures
        command == CashlessDeviceCommand::VendFailed,
{
    CashlessDeviceCommand::VendFailed
}

/// Starts a vend for a request of the host.
pub fn vend_handler(cmd: VendCommand) -> (r: (Vend, VendAction))
    ensures
        r == vend_begin(cmd, false),
{
    let address = cmd.address();
    (
        Vend { command: cmd, forced: false, state: VendState::Lookup, address },
        VendAction::QueryDispenser(address),
    )
}

/// Starts a forced dispense for a request of the host: the item is
/// dispensed without checks and without payment.
pub fn force_dispense_handler(cmd: VendCommand) -> (r: (Vend, VendAction))
    ensures
        r == vend_begin(cmd, true),
{
    let address = cmd.address();
    (
        Vend { command: cmd, forced: true, state: VendState::Lookup, address },
        VendAction::QueryDispenser(address),
    )
}

impl Vend {
    /// Whether the host has its answer.
    pub fn is_done(&self) -> (done: bool)
        ensures
            done == (self.state == VendState::Done),
    {
        self.state == VendState::Done
    }

    fn reply(&mut self, command: Option<CashlessDeviceCommand>, outcome: Result<(), VendError>) -> (action:
        VendAction)
        ensures
            (*final(self), action) == reply(*old(self), command, outcome),
    {
        self.state = VendState::Done;
        VendAction::Reply { command, outcome }
    }

    /// Takes the result of the last action and says what to do next.
    pub fn step(&mut self, driver: &MotorDriver, input: VendInput) -> (action: VendAction)
        requires
            input matches VendInput::Lookup(Some(d)) ==> dispenser_wf(d),
        ensures
            (*final(self), action) == vend_step(*old(self), input),
    {
        match (self.state, input) {
            (VendState::Lookup, VendInput::Lookup(None)) => self.reply(
                None,
                Err(VendError::InvalidAddress),
            ),
            (VendState::Lookup, VendInput::Lookup(Some(d))) => {
                if self.forced {
                    self.state = VendState::Dispensing;
                    self.address = d.address;
                    VendAction::Dispense { address: d.address, omit_checks: true }
                } else {
                    match driver.is_dispensable(d) {
                        Err(e) => self.reply(None, Err(e)),
                        Ok(_) => {
                            self.state = VendState::AwaitingPayment;
                            self.address = d.address;
                            VendAction::AwaitPayment {
                                request: CashlessDeviceCommand::StartTransaction(
                                    self.command.price,
                                    d.address,
                                ),
                                timeout_ms: PAYMENT_TIMEOUT_MS,
                            }
                        },
                    }
                }
            },
            (VendState::AwaitingPayment, VendInput::Payment(event)) => {
                match collect_payment(self.command.price, event) {
                    Ok(_) => {
                        self.state = VendState::Dispensing;
                        VendAction::Dispense { address: self.address, omit_checks: true }
                    },
                    Err(e) => {
                        let command = match e {
                            PaymentError::AmountMismatch
                            | PaymentError::TimedOut
                            | PaymentError::Cancelled => Some(
                                CashlessDeviceCommand::CancelTransaction,
                            ),
                            _ => None,
                        };
                        let error = match e {
                            PaymentError::Cancelled => VendError::Cancelled,
                            _ => VendError::PaymentFailed,
                        };
                        self.reply(command, Err(error))
                    },
                }
            },
            (VendState::Dispensing, VendInput::Dispensed(result)) => {
                if self.forced {
                    self.reply(None, result)
                } else {
                    let command = match result {
                        Ok(_) => vend_success(self.address),
                        Err(_) => vend_failed(),
                    };
                    self.reply(Some(command), result)
                }
            },
            _ => VendAction::Ignore,
        }
    }
}

/// The reports that a vend still waits for at most.
pub open spec fn reports_left(state: VendState) -> int {
    match state {
        VendState::Lookup => 3,
        VendState::AwaitingPayment => 2,
        VendState::Dispensing => 1,
        VendState::Done => 0,
    }
}

/// The report that a state waits for.
pub open spec fn awaited(state: VendState, input: VendInput) -> bool {
    match state {
        VendState::Lookup => input is Lookup,
        VendState::AwaitingPayment => input is Payment,
        VendState::Dispensing => input is Dispensed,
        VendState::Done => false,
    }
}

/// The host gets exactly one outcome for a vend: a step answers the host
/// if and only if it ends the vend, a vend that has ended answers no more,
/// and every awaited report brings the vend nearer to its end, which comes
/// after three reports at the latest.
pub proof fn lemma_one_outcome(v: Vend, input: VendInput)
    ensures
        ({
            let (next, action) = vend_step(v, input);
            &&& action is Reply <==> v.state != VendState::Done && next.state == VendState::Done
            &&& v.state == VendState::Done ==> next == v && action == VendAction::Ignore
            &&& awaited(v.state, input) ==> reports_left(next.state) < reports_left(v.state)
            &&& !awaited(v.state, input) ==> next == v && action == VendAction::Ignore
            &&& reports_left(v.state) <= 3
        }),
{
}

/// A vend whose payment was approved is always settled: whatever the
/// dispenser reports, the step that follows hands the reader task
/// `VendSuccess` for the item where it was delivered, and `VendFailed`
/// where it was not, and the host gets the outcome of the dispenser
/// unchanged.
pub proof fn lemma_approved_vend_is_settled(v: Vend, result: Result<(), VendError>)
    requires
        v.state == VendState::Dispensing,
        !v.forced,
    ensures
        ({
            let (next, action) = vend_step(v, VendInput::Dispensed(result));
            &&& next.state == VendState::Done
            &&& action == (VendAction::Reply {
                command: Some(
                    if result is Ok {
                        CashlessDeviceCommand::VendSuccess(v.address)
                    } else {
                        CashlessDeviceCommand::VendFailed
                    },
                ),
                outcome: result,
            })
        }),
{
}

/// The dispenser runs only after the reader has approved exactly the price:
/// a vend that is not forced goes from the wait for the payment to the
/// dispense if and only if the reader answered `VendApproved` with the
/// price of the request. In every other case the host is told
/// `PaymentFailed`, or `Cancelled` after the escrow lever, and the
/// dispenser is not started.
pub proof fn lemma_dispense_needs_approval(v: Vend, event: PaymentEvent)
    requires
        v.state == VendState::AwaitingPayment,
    ensures
        ({
            let (next, action) = vend_step(v, VendInput::Payment(event));
            let approved = event == PaymentEvent::Response(
                CashlessDeviceResponse::VendApproved(v.command.price),
            );
            &&& approved <==> action is Dispense
            &&& approved ==> action == (VendAction::Dispense {
                address: v.address,
                omit_checks: true,
            })
            &&& !approved ==> next.state == VendState::Done && (action matches VendAction::Reply {
                outcome,
                ..
            } && (outcome == Err::<(), VendError>(VendError::PaymentFailed) || (event
                == PaymentEvent::EscrowPressed && outcome == Err::<(), VendError>(
                VendError::Cancelled,
            ))))
            &&& event == PaymentEvent::TimedOut || event == PaymentEvent::EscrowPressed ==> (
            action matches VendAction::Reply { command, .. } && command == Some(
                CashlessDeviceCommand::CancelTransaction,
            ))
        }),
{
}

/// No payment is asked for unless the dispenser was found and may
/// dispense: a failed look-up or check ends the vend at once with its own
/// error, and hands the reader task nothing.
pub proof fn lemma_payment_needs_check(v: Vend, found: Option<Dispenser>)
    requires
        v.state == VendState::Lookup,
        !v.forced,
    ensures
        ({
            let (next, action) = vend_step(v, VendInput::Lookup(found));
            let fit = found is Some && dispensable(found->0) is Ok;
            &&& fit <==> action is AwaitPayment
            &&& found is None ==> action == (VendAction::Reply {
                command: None,
                outcome: Err(VendError::InvalidAddress),
            })
            &&& found is Some && !fit ==> action == (VendAction::Reply {
                command: None,
                outcome: dispensable(found->0),
            })
        }),
{
}

} // verus!
