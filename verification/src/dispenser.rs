//! The vocabulary shared by the dispenser driver, the vend orchestrator and
//! the host: addresses, dispenser descriptions and vend outcomes.

use vstd::prelude::*;

verus! {

/// Where a dispenser sits in the cabinet: a row letter and a column digit.
#[derive(Clone, Copy, Debug, PartialEq, Eq, Structural)]
pub struct DispenserAddress {
    pub row: char,
    pub col: char,
}

/// The mechanism behind an address.
#[derive(Clone, Copy, Debug, PartialEq, Eq, Structural)]
pub enum DispenserType {
    Spiral,
    Can,
}

/// Whether the motor rests on its home switch.
#[derive(Clone, Copy, Debug, PartialEq, Eq, Structural)]
pub enum MotorStatus {
    Home,
    MotorNotHome,
}

/// What the can-present sensor of a can chute reports.
#[derive(Clone, Copy, Debug, PartialEq, Eq, Structural)]
pub enum CanStatus {
    Stocked,
    LastCan,
}

/// A dispenser as one status query found it.
#[derive(Clone, Copy, Debug, PartialEq, Eq, Structural)]
pub struct Dispenser {
    pub address: DispenserAddress,
    pub dispenser_type: DispenserType,
    pub motor_status: MotorStatus,
    pub can_status: Option<CanStatus>,
}

/// Why the dispenser mechanism refused or failed.
#[derive(Clone, Copy, Debug, PartialEq, Eq, Structural)]
pub enum DispenseError {
    MotorNotPresent,
    MotorNotHome,
    MotorStuckHome,
    MotorStuckNotHome,
    OneOrNoCansLeft,
    NoDropDetected,
    InvalidAddress,
}

/// Why a vend did not deliver.
#[derive(Clone, Copy, Debug, PartialEq, Eq, Structural)]
pub enum VendError {
    MotorNotPresent,
    MotorNotHome,
    MotorStuckHome,
    MotorStuckNotHome,
    OneOrNoCansLeft,
    NoDropDetected,
    InvalidAddress,
    Cancelled,
    PaymentFailed,
    CommsFault,
}

/// A request to vend: the address as two ASCII bytes, and the price in pence.
#[derive(Clone, Copy, Debug, PartialEq, Eq, Structural)]
pub struct VendCommand {
    pub row: u8,
    pub col: u8,
    pub price: u16,
}

impl VendCommand {
    /// The address that the two bytes of the request spell.
    pub open spec fn spec_address(self) -> DispenserAddress {
        DispenserAddress { row: self.row as char, col: self.col as char }
    }

    /// The address that the two bytes of the request spell.
    pub fn address(&self) -> (addr: DispenserAddress)
        ensures
            addr == self.spec_address(),
    {
        DispenserAddress { row: self.row as char, col: self.col as char }
    }
}

/// The vend error that stands for an error of the dispenser: the same
/// failure under the same name.
pub open spec fn vend_error_of(error: DispenseError) -> VendError {
    match error {
        DispenseError::MotorNotPresent => VendError::MotorNotPresent,
        DispenseError::MotorNotHome => VendError::MotorNotHome,
        DispenseError::MotorStuckHome => VendError::MotorStuckHome,
        DispenseError::MotorStuckNotHome => VendError::MotorStuckNotHome,
        DispenseError::OneOrNoCansLeft => VendError::OneOrNoCansLeft,
        DispenseError::NoDropDetected => VendError::NoDropDetected,
        DispenseError::InvalidAddress => VendError::InvalidAddress,
    }
}

impl From<DispenseError> for VendError {
    fn from(error: DispenseError) -> (vend_error: Self) {
        match error {
            DispenseError::MotorNotPresent => VendError::MotorNotPresent,
            DispenseError::MotorNotHome => VendError::MotorNotHome,
            DispenseError::MotorStuckHome => VendError::MotorStuckHome,
            DispenseError::MotorStuckNotHome => VendError::MotorStuckNotHome,
            DispenseError::OneOrNoCansLeft => VendError::OneOrNoCansLeft,
            DispenseError::NoDropDetected => VendError::NoDropDetected,
            DispenseError::InvalidAddress => VendError::InvalidAddress,
        }
    }
}

impl vstd::std_specs::convert::FromSpecImpl<DispenseError> for VendError {
    open spec fn obeys_from_spec() -> bool {
        true
    }

    open spec fn from_spec(error: DispenseError) -> Self {
        vend_error_of(error)
    }
}

} // verus!
