//! The dispenser driver: which latch bits power the motor at an address,
//! which data line carries its sensors, and how a status query and a dispense
//! cycle are sequenced.
//!
//! A query or a cycle is a small state machine. Each step hands out the pin
//! operations to perform and says what to wait for; the caller performs them,
//! waits, and reports with one `bool` whether the awaited thing came true.

use vstd::prelude::*;
use crate::dispenser::{
    CanStatus,
    Dispenser,
    DispenserAddress,
    DispenserType,
    MotorStatus,
    VendError,
};
use crate::matrix::{
    buffer_ops,
    latch_write_ops,
    push_buffer,
    push_latch_write,
    push_sensor_read,
    sensor_read_ops,
    with_compressor,
    Matrix,
    PinOp,
    COMPRESSOR_BIT,
};

verus! {

/// How long the motor is given to leave its home switch, in milliseconds.
pub const LEAVE_HOME_MS: u32 = 1000;

/// How long the motor runs on before its home switch is trusted again, in
/// milliseconds.
pub const DEBOUNCE_MS: u32 = 500;

/// How long the motor is given to come back to its home switch, in milliseconds.
pub const RETURN_HOME_MS: u32 = 2500;

/// The dispensers that are wired in this cabinet: A and B on the even
/// columns 0 to 6, C on columns 0 to 7, and the can rows E and F on columns
/// 0 to 3.
pub open spec fn wired(a: DispenserAddress) -> bool {
    ||| (a.row == 'A' || a.row == 'B') && (a.col == '0' || a.col == '2' || a.col == '4' || a.col
        == '6')
    ||| a.row == 'C' && '0' as u32 <= a.col as u32 <= '7' as u32
    ||| (a.row == 'E' || a.row == 'F') && '0' as u32 <= a.col as u32 <= '3' as u32
}

/// Rows E and F hold cans.
pub open spec fn is_can_row(a: DispenserAddress) -> bool {
    a.row == 'E' || a.row == 'F'
}

/// The row as a number, A being 0.
pub open spec fn row_index(a: DispenserAddress) -> int {
    a.row as u32 - 'A' as u32
}

/// The column as it is printed on the cabinet.
pub open spec fn col_logical(a: DispenserAddress) -> int {
    a.col as u32 - '0' as u32
}

/// The column as it is wired: cans sit on the even columns only.
pub open spec fn col_wired(a: DispenserAddress) -> int {
    if is_can_row(a) {
        col_logical(a) * 2
    } else {
        col_logical(a)
    }
}

/// The address names a row from A to G and a column whose wiring exists: a
/// digit, and for the can rows one whose doubled value is still a column.
pub open spec fn calculable(a: DispenserAddress) -> bool {
    &&& 0 <= row_index(a) <= 6
    &&& 0 <= col_logical(a) <= 9
    &&& col_wired(a) <= 9
}

/// The byte with only bit `n` set.
pub open spec fn bit(n: int) -> u8 {
    1u8 << (n as u8)
}

/// The latch bytes (U2, U3, U4) that power the motor at an address.
///
/// Rows A to D have one line per row and column parity on U4, the can rows E
/// and F likewise on U2, and row G shares bit 5 of U3; the column pair is a
/// bit of U3 in every case.
pub open spec fn drive_bytes(a: DispenserAddress) -> Option<(u8, u8, u8)> {
    if !calculable(a) {
        None
    } else {
        let parity = col_wired(a) % 2;
        let pair = col_wired(a) / 2;
        if row_index(a) <= 3 {
            Some((0u8, bit(pair), bit(row_index(a) * 2 + parity)))
        } else if row_index(a) <= 5 {
            Some((bit((row_index(a) - 4) * 2 + parity), bit(pair), 0u8))
        } else {
            Some((0u8, 0x20u8 | bit(pair), 0u8))
        }
    }
}

/// The data line that carries the motor-home sensor of an address.
pub open spec fn home_sensor_index(a: DispenserAddress) -> u8 {
    if a.row == 'E' {
        4
    } else if a.row == 'F' {
        6
    } else if 0 <= col_logical(a) <= 9 && col_logical(a) % 2 == 1 {
        1
    } else {
        0
    }
}

/// The data line that carries the can-present sensor, for the can rows.
pub open spec fn can_sensor_index(a: DispenserAddress) -> Option<u8> {
    if a.row == 'E' {
        Some(5u8)
    } else if a.row == 'F' {
        Some(7u8)
    } else {
        None
    }
}

/// The mechanism at an address.
pub open spec fn dispenser_type_of(a: DispenserAddress) -> DispenserType {
    if is_can_row(a) {
        DispenserType::Can
    } else {
        DispenserType::Spiral
    }
}

/// The latch write that stops every motor and keeps the compressor as it is.
pub open spec fn stop_ops(compressor_on: bool) -> Seq<PinOp> {
    latch_write_ops(with_compressor(0, compressor_on), 0, 0)
}

/// The latch write that powers the motor at an address.
pub open spec fn drive_ops(a: DispenserAddress, compressor_on: bool) -> Seq<PinOp>
    recommends
        drive_bytes(a) is Some,
{
    let d = drive_bytes(a)->0;
    latch_write_ops(with_compressor(d.0, compressor_on), d.1, d.2)
}

/// Power the motor, read one sensor bit, stop all motors.
pub open spec fn pulse_ops(a: DispenserAddress, index: u8, compressor_on: bool) -> Seq<PinOp> {
    drive_ops(a, compressor_on) + sensor_read_ops(index) + stop_ops(compressor_on)
}

/// Power the motor and turn the buffer to the sensors.
pub open spec fn start_ops(a: DispenserAddress, compressor_on: bool) -> Seq<PinOp> {
    drive_ops(a, compressor_on) + buffer_ops(true)
}

/// Turn the buffer back outward and stop all motors.
pub open spec fn finish_ops(compressor_on: bool) -> Seq<PinOp> {
    buffer_ops(false) + stop_ops(compressor_on)
}

/// A dispenser description is coherent: a can chute has a can status, a
/// spiral has none.
pub open spec fn dispenser_wf(d: Dispenser) -> bool {
    (d.dispenser_type == DispenserType::Can) == (d.can_status is Some)
}

/// Whether a dispenser, as a status query found it, may be asked to
/// dispense: the motor is home, and a can chute holds more than its last can.
pub open spec fn dispensable(d: Dispenser) -> Result<(), VendError> {
    if d.motor_status == MotorStatus::MotorNotHome {
        Err(VendError::MotorNotHome)
    } else if d.dispenser_type == DispenserType::Can && d.can_status == Some(CanStatus::LastCan) {
        Err(VendError::OneOrNoCansLeft)
    } else {
        Ok(())
    }
}

/// What the caller waits for after it has performed the operations of a step.
#[derive(Clone, Copy, Debug, PartialEq, Eq, Structural)]
pub enum Await {
    /// The level that the `Sample` operation of this step read on data line
    /// `index`; the report is `true` for high.
    Sampled { index: u8 },
    /// Data line `index` going low; the report is `false` if it did not
    /// within `within_ms` milliseconds.
    Low { index: u8, within_ms: u32 },
    /// Data line `index` going high; the report is `false` if it did not
    /// within `within_ms` milliseconds.
    High { index: u8, within_ms: u32 },
    /// `ms` milliseconds to pass.
    Sleep { ms: u32 },
    /// Nothing: the query or the cycle has ended.
    Nothing,
}

/// One step of a query or a cycle: what to do, then what to wait for.
#[derive(Clone, Debug, PartialEq, Eq)]
pub struct Step {
    pub ops: Vec<PinOp>,
    pub wait: Await,
}

/// Where a status query stands.
#[derive(Clone, Copy, Debug, PartialEq, Eq, Structural)]
pub enum StatusPhase {
    /// The motor is powered and its home sensor is being read.
    Home,
    /// The motor is powered and the can-present sensor is being read.
    Can,
    /// The motors are stopped and the result is known.
    Done,
}

/// A status query in progress.
#[derive(Clone, Copy, Debug, PartialEq, Eq, Structural)]
pub struct StatusQuery {
    pub address: DispenserAddress,
    pub phase: StatusPhase,
    pub motor_status: MotorStatus,
    /// The dispenser, once the query is done; `None` where nothing is wired
    /// at the address.
    pub result: Option<Dispenser>,
}

/// Where a dispense cycle stands.
#[derive(Clone, Copy, Debug, PartialEq, Eq, Structural)]
pub enum DispensePhase {
    /// Pre-flight: the motor is powered and its home sensor is being read.
    PreflightHome,
    /// Pre-flight: the motor is powered and the can-present sensor is being read.
    PreflightCan,
    /// The motor runs and has to leave its home switch.
    LeavingHome,
    /// The motor runs on while the switch may still bounce.
    Debouncing,
    /// The motor runs and has to come back to its home switch.
    ReturningHome,
    /// The motors are stopped and the outcome is known.
    Finished,
}

/// A dispense cycle in progress.
#[derive(Clone, Copy, Debug, PartialEq, Eq, Structural)]
pub struct DispenseCycle {
    pub address: DispenserAddress,
    pub phase: DispensePhase,
    /// The error of a finished cycle; `None` while it runs, and after it
    /// has delivered.
    pub error: Option<VendError>,
}

/// A step of a machine as a value of the logic: the operations, the wait,
/// and the state afterwards.
pub ghost struct StepModel<S> {
    pub next: S,
    pub ops: Seq<PinOp>,
    pub wait: Await,
}

/// The dispenser that a finished query reports for a wired address.
pub open spec fn assembled(
    a: DispenserAddress,
    motor_status: MotorStatus,
    can_level: Option<bool>,
) -> Dispenser {
    Dispenser {
        address: a,
        dispenser_type: dispenser_type_of(a),
        motor_status,
        can_status: match can_level {
            Some(high) => Some(
                if high {
                    CanStatus::Stocked
                } else {
                    CanStatus::LastCan
                },
            ),
            None => None,
        },
    }
}

/// The first step of a status query.
pub open spec fn status_begin(a: DispenserAddress, compressor_on: bool) -> StepModel<StatusQuery> {
    if !wired(a) {
        StepModel {
            next: StatusQuery {
                address: a,
                phase: StatusPhase::Done,
                motor_status: MotorStatus::Home,
                result: None,
            },
            ops: Seq::empty(),
            wait: Await::Nothing,
        }
    } else {
        StepModel {
            next: StatusQuery {
                address: a,
                phase: StatusPhase::Home,
                motor_status: MotorStatus::Home,
                result: None,
            },
            ops: drive_ops(a, compressor_on) + sensor_read_ops(home_sensor_index(a)),
            wait: Await::Sampled { index: home_sensor_index(a) },
        }
    }
}

/// The step of a status query that follows a report.
pub open spec fn status_advance(q: StatusQuery, compressor_on: bool, high: bool) -> StepModel<
    StatusQuery,
> {
    let a = q.address;
    match q.phase {
        StatusPhase::Home => {
            let motor_status = if high {
                MotorStatus::Home
            } else {
                MotorStatus::MotorNotHome
            };
            if is_can_row(a) {
                StepModel {
                    next: StatusQuery { phase: StatusPhase::Can, motor_status, ..q },
                    ops: sensor_read_ops(can_sensor_index(a)->0),
                    wait: Await::Sampled { index: can_sensor_index(a)->0 },
                }
            } else {
                StepModel {
                    next: StatusQuery {
                        phase: StatusPhase::Done,
                        motor_status,
                        result: Some(assembled(a, motor_status, None)),
                        ..q
                    },
                    ops: stop_ops(compressor_on),
                    wait: Await::Nothing,
                }
            }
        },
        StatusPhase::Can => StepModel {
            next: StatusQuery {
                phase: StatusPhase::Done,
                result: Some(assembled(a, q.motor_status, Some(high))),
                ..q
            },
            ops: stop_ops(compressor_on),
            wait: Await::Nothing,
        },
        StatusPhase::Done => StepModel { next: q, ops: Seq::empty(), wait: Await::Nothing },
    }
}

/// The step that starts the motor for good, after or without pre-flight.
pub open spec fn dispense_start(a: DispenserAddress, compressor_on: bool) -> StepModel<
    DispenseCycle,
> {
    StepModel {
        next: DispenseCycle { address: a, phase: DispensePhase::LeavingHome, error: None },
        ops: start_ops(a, compressor_on),
        wait: Await::Low { index: home_sensor_index(a), within_ms: LEAVE_HOME_MS },
    }
}

/// The step that ends a cycle with the motor still powered: stop, and
/// report `error`.
pub open spec fn dispense_stop(
    a: DispenserAddress,
    ops: Seq<PinOp>,
    error: Option<VendError>,
) -> StepModel<DispenseCycle> {
    StepModel {
        next: DispenseCycle { address: a, phase: DispensePhase::Finished, error },
        ops,
        wait: Await::Nothing,
    }
}

/// The first step of a dispense cycle.
pub open spec fn dispense_begin(
    a: DispenserAddress,
    omit_checks: bool,
    compressor_on: bool,
) -> StepModel<DispenseCycle> {
    if !wired(a) {
        dispense_stop(a, Seq::empty(), Some(VendError::InvalidAddress))
    } else if omit_checks {
        dispense_start(a, compressor_on)
    } else {
        StepModel {
            next: DispenseCycle { address: a, phase: DispensePhase::PreflightHome, error: None },
            ops: drive_ops(a, compressor_on) + sensor_read_ops(home_sensor_index(a)),
            wait: Await::Sampled { index: home_sensor_index(a) },
        }
    }
}

/// The step of a dispense cycle that follows a report.
pub open spec fn dispense_advance(
    cycle: DispenseCycle,
    compressor_on: bool,
    met: bool,
) -> StepModel<DispenseCycle> {
    let a = cycle.address;
    match cycle.phase {
        DispensePhase::PreflightHome => {
            if !met {
                dispense_stop(a, stop_ops(compressor_on), Some(VendError::MotorNotHome))
            } else if is_can_row(a) {
                StepModel {
                    next: DispenseCycle { phase: DispensePhase::PreflightCan, ..cycle },
                    ops: sensor_read_ops(can_sensor_index(a)->0),
                    wait: Await::Sampled { index: can_sensor_index(a)->0 },
                }
            } else {
                dispense_start(a, compressor_on)
            }
        },
        DispensePhase::PreflightCan => {
            if !met {
                dispense_stop(a, stop_ops(compressor_on), Some(VendError::OneOrNoCansLeft))
            } else {
                dispense_start(a, compressor_on)
            }
        },
        DispensePhase::LeavingHome => {
            if !met {
                dispense_stop(a, finish_ops(compressor_on), Some(VendError::MotorStuckHome))
            } else {
                StepModel {
                    next: DispenseCycle { phase: DispensePhase::Debouncing, ..cycle },
                    ops: Seq::empty(),
                    wait: Await::Sleep { ms: DEBOUNCE_MS },
                }
            }
        },
        DispensePhase::Debouncing => StepModel {
            next: DispenseCycle { phase: DispensePhase::ReturningHome, ..cycle },
            ops: Seq::empty(),
            wait: Await::High { index: home_sensor_index(a), within_ms: RETURN_HOME_MS },
        },
        DispensePhase::ReturningHome => dispense_stop(
            a,
            finish_ops(compressor_on),
            if met {
                None
            } else {
                Some(VendError::MotorStuckNotHome)
            },
        ),
        DispensePhase::Finished => StepModel {
            next: cycle,
            ops: Seq::empty(),
            wait: Await::Nothing,
        },
    }
}

impl StatusQuery {
    /// A query that is under way speaks of a wired address.
    pub open spec fn wf(self) -> bool {
        self.phase != StatusPhase::Done ==> wired(self.address)
    }

    /// What holds of the matrix while the query stands in its phase: the
    /// motor at the address is powered while a sensor is read, and nothing
    /// is powered once the query is done.
    pub open spec fn matrix_inv(self, compressor_on: bool, m: Matrix) -> bool {
        if self.phase == StatusPhase::Done {
            m.idle(compressor_on)
        } else {
            energized(self.address, compressor_on, m) && m.oe
        }
    }

    /// Whether the query has ended.
    pub fn is_done(&self) -> (done: bool)
        ensures
            done == (self.phase == StatusPhase::Done),
    {
        self.phase == StatusPhase::Done
    }

    /// Takes the report of the last step and hands out the next one.
    pub fn advance(&mut self, driver: &MotorDriver, high: bool) -> (step: Step)
        requires
            old(self).wf(),
        ensures
            final(self).wf(),
            *final(self) == status_advance(*old(self), driver.chiller_on, high).next,
            step.ops@ == status_advance(*old(self), driver.chiller_on, high).ops,
            step.wait == status_advance(*old(self), driver.chiller_on, high).wait,
    {
        let address = self.address;
        let mut ops: Vec<PinOp> = Vec::new();
        match self.phase {
            StatusPhase::Home => {
                let motor_status = if high {
                    MotorStatus::Home
                } else {
                    MotorStatus::MotorNotHome
                };
                self.motor_status = motor_status;
                match MotorDriver::can_status_gpio_index(address) {
                    Some(index) => {
                        push_sensor_read(&mut ops, index);
                        self.phase = StatusPhase::Can;
                        Step { ops, wait: Await::Sampled { index } }
                    },
                    None => {
                        driver.push_stop(&mut ops);
                        self.phase = StatusPhase::Done;
                        self.result = Some(
                            Dispenser {
                                address,
                                dispenser_type: DispenserType::Spiral,
                                motor_status,
                                can_status: None,
                            },
                        );
                        Step { ops, wait: Await::Nothing }
                    },
                }
            },
            StatusPhase::Can => {
                let can_status = if high {
                    CanStatus::Stocked
                } else {
                    CanStatus::LastCan
                };
                driver.push_stop(&mut ops);
                self.phase = StatusPhase::Done;
                self.result = Some(
                    Dispenser {
                        address,
                        dispenser_type: MotorDriver::dispenser_type(address),
                        motor_status: self.motor_status,
                        can_status: Some(can_status),
                    },
                );
                Step { ops, wait: Await::Nothing }
            },
            StatusPhase::Done => Step { ops, wait: Await::Nothing },
        }
    }
}

impl DispenseCycle {
    /// A cycle that is under way speaks of a wired address and has no
    /// error yet.
    pub open spec fn wf(self) -> bool {
        self.phase != DispensePhase::Finished ==> wired(self.address) && self.error is None
    }

    /// What holds of the matrix while the cycle stands in its phase.
    ///
    /// During pre-flight the motor at the address is powered and the buffer
    /// drives outward; while the motor runs the buffer is turned to the
    /// sensors; once the cycle is finished nothing is powered and the
    /// buffer drives outward.
    pub open spec fn matrix_inv(self, compressor_on: bool, m: Matrix) -> bool {
        match self.phase {
            DispensePhase::PreflightHome | DispensePhase::PreflightCan => energized(
                self.address,
                compressor_on,
                m,
            ) && m.oe,
            DispensePhase::LeavingHome | DispensePhase::Debouncing | DispensePhase::ReturningHome =>
                energized(self.address, compressor_on, m) && !m.oe,
            DispensePhase::Finished => m.idle(compressor_on),
        }
    }

    /// The outcome of a finished cycle.
    pub open spec fn spec_outcome(self) -> Option<Result<(), VendError>> {
        if self.phase == DispensePhase::Finished {
            Some(
                match self.error {
                    Some(e) => Err(e),
                    None => Ok(()),
                },
            )
        } else {
            None
        }
    }

    /// The outcome of the cycle, once it is finished.
    pub fn outcome(&self) -> (r: Option<Result<(), VendError>>)
        ensures
            r == self.spec_outcome(),
    {
        if self.phase == DispensePhase::Finished {
            match self.error {
                Some(e) => Some(Err(e)),
                None => Some(Ok(())),
            }
        } else {
            None
        }
    }

    /// Takes the report of the last step and hands out the next one.
    pub fn advance(&mut self, driver: &MotorDriver, met: bool) -> (step: Step)
        requires
            old(self).wf(),
        ensures
            final(self).wf(),
            *final(self) == dispense_advance(*old(self), driver.chiller_on, met).next,
            step.ops@ == dispense_advance(*old(self), driver.chiller_on, met).ops,
            step.wait == dispense_advance(*old(self), driver.chiller_on, met).wait,
    {
        let address = self.address;
        let mut ops: Vec<PinOp> = Vec::new();
        match self.phase {
            DispensePhase::PreflightHome => {
                if !met {
                    driver.push_stop(&mut ops);
                    self.phase = DispensePhase::Finished;
                    self.error = Some(VendError::MotorNotHome);
                    Step { ops, wait: Await::Nothing }
                } else {
                    match MotorDriver::can_status_gpio_index(address) {
                        Some(index) => {
                            push_sensor_read(&mut ops, index);
                            self.phase = DispensePhase::PreflightCan;
                            Step { ops, wait: Await::Sampled { index } }
                        },
                        None => {
                            self.phase = DispensePhase::LeavingHome;
                            driver.start_step(address)
                        },
                    }
                }
            },
            DispensePhase::PreflightCan => {
                if !met {
                    driver.push_stop(&mut ops);
                    self.phase = DispensePhase::Finished;
                    self.error = Some(VendError::OneOrNoCansLeft);
                    Step { ops, wait: Await::Nothing }
                } else {
                    self.phase = DispensePhase::LeavingHome;
                    driver.start_step(address)
                }
            },
            DispensePhase::LeavingHome => {
                if !met {
                    driver.push_finish(&mut ops);
                    self.phase = DispensePhase::Finished;
                    self.error = Some(VendError::MotorStuckHome);
                    Step { ops, wait: Await::Nothing }
                } else {
                    self.phase = DispensePhase::Debouncing;
                    Step { ops, wait: Await::Sleep { ms: DEBOUNCE_MS } }
                }
            },
            DispensePhase::Debouncing => {
                self.phase = DispensePhase::ReturningHome;
                Step {
                    ops,
                    wait: Await::High {
                        index: MotorDriver::motor_homed_gpio_index(address),
                        within_ms: RETURN_HOME_MS,
                    },
                }
            },
            DispensePhase::ReturningHome => {
                driver.push_finish(&mut ops);
                self.phase = DispensePhase::Finished;
                if !met {
                    self.error = Some(VendError::MotorStuckNotHome);
                }
                Step { ops, wait: Await::Nothing }
            },
            DispensePhase::Finished => Step { ops, wait: Await::Nothing },
        }
    }
}

/// The motor at the address is powered, and the lines are quiet.
pub open spec fn energized(a: DispenserAddress, compressor_on: bool, m: Matrix) -> bool
    recommends
        drive_bytes(a) is Some,
{
    let d = drive_bytes(a)->0;
    m.quiet() && m.holds(with_compressor(d.0, compressor_on), d.1, d.2)
}

/// The driver of the dispenser matrix. It remembers whether the compressor
/// is to run, and adds that bit to every latch write.
#[derive(Clone, Copy, Debug, PartialEq, Eq, Structural)]
pub struct MotorDriver {
    pub chiller_on: bool,
}

impl MotorDriver {
    /// A driver with the compressor off, and the power-on sequence that
    /// clears the latches.
    pub fn new() -> (r: (MotorDriver, Vec<PinOp>))
        ensures
            !r.0.chiller_on,
            r.1@ == crate::matrix::power_on_ops(),
    {
        (MotorDriver { chiller_on: false }, crate::matrix::power_on())
    }

    /// The 24 wired addresses, row by row.
    pub fn valid_addresses() -> (table: [DispenserAddress; 24])
        ensures
            forall|i: int| 0 <= i < 24 ==> wired(#[trigger] table[i]),
            forall|a: DispenserAddress| wired(a) ==> exists|i: int| 0 <= i < 24 && table[i] == a,
            forall|i: int, j: int| 0 <= i < j < 24 ==> table[i] != table[j],
    {
        let table = [
            DispenserAddress { row: 'A', col: '0' },
            DispenserAddress { row: 'A', col: '2' },
            DispenserAddress { row: 'A', col: '4' },
            DispenserAddress { row: 'A', col: '6' },
            DispenserAddress { row: 'B', col: '0' },
            DispenserAddress { row: 'B', col: '2' },
            DispenserAddress { row: 'B', col: '4' },
            DispenserAddress { row: 'B', col: '6' },
            DispenserAddress { row: 'C', col: '0' },
            DispenserAddress { row: 'C', col: '1' },
            DispenserAddress { row: 'C', col: '2' },
            DispenserAddress { row: 'C', col: '3' },
            DispenserAddress { row: 'C', col: '4' },
            DispenserAddress { row: 'C', col: '5' },
            DispenserAddress { row: 'C', col: '6' },
            DispenserAddress { row: 'C', col: '7' },
            DispenserAddress { row: 'E', col: '0' },
            DispenserAddress { row: 'E', col: '1' },
            DispenserAddress { row: 'E', col: '2' },
            DispenserAddress { row: 'E', col: '3' },
            DispenserAddress { row: 'F', col: '0' },
            DispenserAddress { row: 'F', col: '1' },
            DispenserAddress { row: 'F', col: '2' },
            DispenserAddress { row: 'F', col: '3' },
        ];
        proof {
            assert forall|a: DispenserAddress| wired(a) implies exists|i: int|
                0 <= i < 24 && table[i] == a by {
                let r = a.row;
                let c = a.col as u32;
                let base: int = if r == 'A' {
                    (c - 48) / 2
                } else if r == 'B' {
                    4 + (c - 48) / 2
                } else if r == 'C' {
                    8 + (c - 48)
                } else if r == 'E' {
                    16 + (c - 48)
                } else {
                    20 + (c - 48)
                };
                assert(0 <= base < 24);
                assert(table[base].row == a.row);
                assert(table[base].col as u32 == c);
                assert(table[base] == a);
            }
        }
        table
    }

    /// Whether a dispenser is wired at the address.
    pub fn is_address_valid(addr: DispenserAddress) -> (valid: bool)
        ensures
            valid == wired(addr),
    {
        let col = addr.col as u32;
        match addr.row {
            'A' | 'B' => col == 48 || col == 50 || col == 52 || col == 54,
            'C' => 48 <= col && col <= 55,
            'E' | 'F' => 48 <= col && col <= 51,
            _ => false,
        }
    }

    /// The mechanism at an address: cans in rows E and F, spirals elsewhere.
    pub fn dispenser_type(addr: DispenserAddress) -> (t: DispenserType)
        ensures
            t == dispenser_type_of(addr),
    {
        if addr.row == 'E' || addr.row == 'F' {
            DispenserType::Can
        } else {
            DispenserType::Spiral
        }
    }

    /// The latch bytes U2, U3, U4 that power the motor at an address, or
    /// `Err` where the address names no row from A to G or no column that
    /// the wiring has.
    pub fn calc_drive_bytes(addr: DispenserAddress) -> (r: Result<[u8; 3], ()>)
        ensures
            r is Ok == drive_bytes(addr) is Some,
            r matches Ok(bytes) ==> (bytes[0], bytes[1], bytes[2]) == drive_bytes(addr)->0,
    {
        let row = addr.row as u32;
        let col = addr.col as u32;
        if row < 65 || row > 71 {
            return Err(());
        }
        if col < 48 || col > 57 {
            return Err(());
        }
        let row_offset: u8 = (row - 65) as u8;
        let col_logical: u8 = (col - 48) as u8;
        let col_offset: u8 = if row_offset == 4 || row_offset == 5 {
            col_logical * 2
        } else {
            col_logical
        };
        if col_offset > 9 {
            return Err(());
        }
        let even_odd_offset: u8 = col_offset % 2;
        let column: u8 = 1u8 << (col_offset / 2);
        if row_offset <= 3 {
            Ok([0, column, 1u8 << (row_offset * 2 + even_odd_offset)])
        } else if row_offset <= 5 {
            Ok([1u8 << ((row_offset - 4) * 2 + even_odd_offset), column, 0])
        } else {
            Ok([0, 0x20u8 | column, 0])
        }
    }

    /// The data line on which the motor-home sensor of an address is read.
    pub fn motor_homed_gpio_index(addr: DispenserAddress) -> (index: u8)
        ensures
            index == home_sensor_index(addr),
            index < 8,
    {
        let col = addr.col as u32;
        if addr.row == 'E' {
            4
        } else if addr.row == 'F' {
            6
        } else if 48 <= col && col <= 57 && (col - 48) % 2 == 1 {
            1
        } else {
            0
        }
    }

    /// The data line on which the can-present sensor of an address is read;
    /// `None` outside the can rows.
    pub fn can_status_gpio_index(addr: DispenserAddress) -> (index: Option<u8>)
        ensures
            index == can_sensor_index(addr),
            index is Some == is_can_row(addr),
    {
        if addr.row == 'E' {
            Some(5)
        } else if addr.row == 'F' {
            Some(7)
        } else {
            None
        }
    }

    /// The latch write for `bytes`, with the compressor bit added to the
    /// first as the driver's flag says.
    pub fn write_bytes(&self, bytes: [u8; 3]) -> (ops: Vec<PinOp>)
        ensures
            ops@ == latch_write_ops(with_compressor(bytes[0], self.chiller_on), bytes[1], bytes[2]),
    {
        crate::matrix::write_latches(bytes[0], bytes[1], bytes[2], self.chiller_on)
    }

    /// The latch write that stops every motor.
    pub fn stop_motors(&self) -> (ops: Vec<PinOp>)
        ensures
            ops@ == stop_ops(self.chiller_on),
    {
        self.write_bytes([0, 0, 0])
    }

    /// The latch write that powers the motor at an address.
    pub fn drive_motor(&self, addr: DispenserAddress) -> (ops: Vec<PinOp>)
        requires
            drive_bytes(addr) is Some,
        ensures
            ops@ == drive_ops(addr, self.chiller_on),
    {
        let mut ops: Vec<PinOp> = Vec::new();
        self.push_drive(&mut ops, addr);
        proof {
            assert(ops@ =~= drive_ops(addr, self.chiller_on));
        }
        ops
    }

    /// Power the motor at an address, read data line `gpio_index`, stop all
    /// motors. The level that the one `Sample` operation reads is the
    /// result of the pulse.
    pub fn pulse_motor_and_read_gpio(&self, addr: DispenserAddress, gpio_index: u8) -> (ops: Vec<
        PinOp,
    >)
        requires
            drive_bytes(addr) is Some,
        ensures
            ops@ == pulse_ops(addr, gpio_index, self.chiller_on),
    {
        let mut ops: Vec<PinOp> = Vec::new();
        self.push_drive(&mut ops, addr);
        push_sensor_read(&mut ops, gpio_index);
        self.push_stop(&mut ops);
        proof {
            assert(ops@ =~= pulse_ops(addr, gpio_index, self.chiller_on));
        }
        ops
    }

    /// Whether a dispenser, as a status query found it, may be asked to
    /// dispense.
    pub fn is_dispensable(&self, dispenser: Dispenser) -> (r: Result<(), VendError>)
        requires
            dispenser_wf(dispenser),
        ensures
            r == dispensable(dispenser),
    {
        match dispenser.motor_status {
            MotorStatus::Home => match dispenser.dispenser_type {
                DispenserType::Spiral => Ok(()),
                DispenserType::Can => match dispenser.can_status {
                    Some(CanStatus::LastCan) => Err(VendError::OneOrNoCansLeft),
                    _ => Ok(()),
                },
            },
            MotorStatus::MotorNotHome => Err(VendError::MotorNotHome),
        }
    }

    /// Starts a status query of the dispenser at an address.
    ///
    /// Where nothing is wired at the address the query is done at once,
    /// with no result and no operation. Else the motor is powered and its
    /// home sensor read; for a can chute the can-present sensor is read next;
    /// then the motors are stopped and the dispenser is described.
    pub fn get_dispenser(&self, addr: DispenserAddress) -> (r: (StatusQuery, Step))
        ensures
            r.0.wf(),
            r.0 == status_begin(addr, self.chiller_on).next,
            r.1.ops@ == status_begin(addr, self.chiller_on).ops,
            r.1.wait == status_begin(addr, self.chiller_on).wait,
    {
        let mut ops: Vec<PinOp> = Vec::new();
        if !Self::is_address_valid(addr) {
            (
                StatusQuery {
                    address: addr,
                    phase: StatusPhase::Done,
                    motor_status: MotorStatus::Home,
                    result: None,
                },
                Step { ops, wait: Await::Nothing },
            )
        } else {
            proof {
                lemma_wired_is_calculable(addr);
            }
            let index = Self::motor_homed_gpio_index(addr);
            self.push_drive(&mut ops, addr);
            push_sensor_read(&mut ops, index);
            proof {
                assert(ops@ =~= drive_ops(addr, self.chiller_on) + sensor_read_ops(index));
            }
            (
                StatusQuery {
                    address: addr,
                    phase: StatusPhase::Home,
                    motor_status: MotorStatus::Home,
                    result: None,
                },
                Step { ops, wait: Await::Sampled { index } },
            )
        }
    }

    /// Starts a dispense cycle at an address.
    ///
    /// An address at which nothing is wired ends the cycle at once with
    /// `InvalidAddress` and without any operation. With `omit_checks` the
    /// motor is started right away. Else the cycle opens with the
    /// pre-flight: the motor is powered and its home sensor read.
    pub fn dispense(&self, addr: DispenserAddress, omit_checks: bool) -> (r: (DispenseCycle, Step))
        ensures
            r.0.wf(),
            r.0 == dispense_begin(addr, omit_checks, self.chiller_on).next,
            r.1.ops@ == dispense_begin(addr, omit_checks, self.chiller_on).ops,
            r.1.wait == dispense_begin(addr, omit_checks, self.chiller_on).wait,
    {
        if !Self::is_address_valid(addr) {
            (
                DispenseCycle {
                    address: addr,
                    phase: DispensePhase::Finished,
                    error: Some(VendError::InvalidAddress),
                },
                Step { ops: Vec::new(), wait: Await::Nothing },
            )
        } else if omit_checks {
            (
                DispenseCycle { address: addr, phase: DispensePhase::LeavingHome, error: None },
                self.start_step(addr),
            )
        } else {
            proof {
                lemma_wired_is_calculable(addr);
            }
            let index = Self::motor_homed_gpio_index(addr);
            let mut ops: Vec<PinOp> = Vec::new();
            self.push_drive(&mut ops, addr);
            push_sensor_read(&mut ops, index);
            proof {
                assert(ops@ =~= drive_ops(addr, self.chiller_on) + sensor_read_ops(index));
            }
            (
                DispenseCycle { address: addr, phase: DispensePhase::PreflightHome, error: None },
                Step { ops, wait: Await::Sampled { index } },
            )
        }
    }

    /// Sets whether the compressor is to run, and hands out the latch write
    /// that makes it so.
    pub fn set_chiller_on(&mut self, status: bool) -> (ops: Vec<PinOp>)
        ensures
            final(self).chiller_on == status,
            ops@ == stop_ops(status),
    {
        self.chiller_on = status;
        self.stop_motors()
    }

    fn push_stop(&self, ops: &mut Vec<PinOp>)
        ensures
            final(ops)@ == old(ops)@ + stop_ops(self.chiller_on),
    {
        let first: u8 = if self.chiller_on {
            0u8 | COMPRESSOR_BIT
        } else {
            0
        };
        push_latch_write(ops, first, 0, 0);
    }

    fn push_drive(&self, ops: &mut Vec<PinOp>, addr: DispenserAddress)
        requires
            drive_bytes(addr) is Some,
        ensures
            final(ops)@ == old(ops)@ + drive_ops(addr, self.chiller_on),
    {
        match Self::calc_drive_bytes(addr) {
            Ok(bytes) => {
                let first: u8 = if self.chiller_on {
                    bytes[0] | COMPRESSOR_BIT
                } else {
                    bytes[0]
                };
                push_latch_write(ops, first, bytes[1], bytes[2]);
            },
            Err(_) => {},
        }
    }

    fn push_finish(&self, ops: &mut Vec<PinOp>)
        ensures
            final(ops)@ == old(ops)@ + finish_ops(self.chiller_on),
    {
        push_buffer(ops, false);
        self.push_stop(ops);
        proof {
            assert(ops@ =~= old(ops)@ + finish_ops(self.chiller_on));
        }
    }

    fn start_step(&self, addr: DispenserAddress) -> (step: Step)
        requires
            wired(addr),
        ensures
            step.ops@ == dispense_start(addr, self.chiller_on).ops,
            step.wait == dispense_start(addr, self.chiller_on).wait,
    {
        proof {
            lemma_wired_is_calculable(addr);
        }
        let mut ops: Vec<PinOp> = Vec::new();
        self.push_drive(&mut ops, addr);
        push_buffer(&mut ops, true);
        proof {
            assert(ops@ =~= start_ops(addr, self.chiller_on));
        }
        Step {
            ops,
            wait: Await::Low {
                index: Self::motor_homed_gpio_index(addr),
                within_ms: LEAVE_HOME_MS,
            },
        }
    }
}

/// Every wired address has latch bytes, and they never touch the
/// compressor bit: the motor lines of U2 are its lower four bits.
pub proof fn lemma_wired_is_calculable(a: DispenserAddress)
    requires
        wired(a),
    ensures
        drive_bytes(a) is Some,
        ({
            let bytes = drive_bytes(a)->0;
            let u2 = bytes.0;
            u2 & COMPRESSOR_BIT == 0
        }),
{
    let d = drive_bytes(a)->0;
    assert(0u8 & 0x10 == 0 && (1u8 << 0u8) & 0x10 == 0 && (1u8 << 2u8) & 0x10 == 0)
        by (bit_vector);
}

} // verus!
