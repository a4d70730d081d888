//! What holds of every status query and every dispense cycle, whatever the
//! sensors report: the motors are stopped and the buffer drives outward when
//! the driver is done, the bus discipline is never broken, the clear line is
//! never touched, and the cycle ends within a fixed number of steps and a
//! fixed time.

use vstd::prelude::*;
use crate::dispenser::{DispenserAddress, VendError};
use crate::matrix::{
    buffer_ops,
    clear_count,
    lemma_buffer,
    lemma_buffer_shape,
    lemma_clear_count_concat,
    lemma_delay_concat,
    lemma_latch_write,
    lemma_latch_write_shape,
    lemma_run_concat,
    lemma_sensor_read,
    lemma_sensor_read_shape,
    sensor_read_ops,
    total_delay_us,
    with_compressor,
    Matrix,
};
use crate::motor_driver::{
    dispense_advance,
    dispense_begin,
    drive_bytes,
    drive_ops,
    energized,
    finish_ops,
    home_sensor_index,
    lemma_wired_is_calculable,
    start_ops,
    assembled,
    is_can_row,
    status_advance,
    status_begin,
    stop_ops,
    wired,
    Await,
    DispenseCycle,
    DispensePhase,
    StatusPhase,
    StatusQuery,
    StepModel,
    DEBOUNCE_MS,
    LEAVE_HOME_MS,
    RETURN_HOME_MS,
};

verus! {

/// The lines are quiet and the buffer stands as `reading` says.
pub open spec fn settled(m: Matrix, reading: bool) -> bool {
    m.quiet() && m.oe == !reading
}

/// Powering a motor from quiet lines, with the buffer driving outward,
/// powers exactly that motor and leaves the lines quiet.
pub proof fn lemma_drive(m: Matrix, a: DispenserAddress, compressor_on: bool)
    requires
        settled(m, false),
        drive_bytes(a) is Some,
    ensures
        energized(a, compressor_on, m.run(drive_ops(a, compressor_on))),
        m.run(drive_ops(a, compressor_on)).oe,
        clear_count(drive_ops(a, compressor_on)) == 0,
{
    let d = drive_bytes(a)->0;
    lemma_latch_write(m, with_compressor(d.0, compressor_on), d.1, d.2);
    lemma_latch_write_shape(with_compressor(d.0, compressor_on), d.1, d.2);
}

/// Stopping the motors from quiet lines, with the buffer driving outward,
/// leaves the matrix idle.
pub proof fn lemma_stop(m: Matrix, compressor_on: bool)
    requires
        settled(m, false),
    ensures
        m.run(stop_ops(compressor_on)).idle(compressor_on),
        clear_count(stop_ops(compressor_on)) == 0,
        total_delay_us(stop_ops(compressor_on)) == 6,
{
    lemma_latch_write(m, with_compressor(0, compressor_on), 0, 0);
    lemma_latch_write_shape(with_compressor(0, compressor_on), 0, 0);
}

/// Turning the buffer outward and stopping the motors, from quiet lines
/// with the buffer turned to the sensors, leaves the matrix idle, and takes
/// 26 microseconds.
pub proof fn lemma_finish(m: Matrix, compressor_on: bool)
    requires
        settled(m, true),
    ensures
        m.run(finish_ops(compressor_on)).idle(compressor_on),
        clear_count(finish_ops(compressor_on)) == 0,
        total_delay_us(finish_ops(compressor_on)) == 26,
{
    lemma_buffer(m, false);
    lemma_buffer_shape(false);
    lemma_stop(m.run(buffer_ops(false)), compressor_on);
    lemma_run_concat(m, buffer_ops(false), stop_ops(compressor_on));
    lemma_clear_count_concat(buffer_ops(false), stop_ops(compressor_on));
    lemma_delay_concat(buffer_ops(false), stop_ops(compressor_on));
}

/// Powering a motor and turning the buffer to the sensors, from quiet
/// lines, leaves that motor powered and the buffer reading.
pub proof fn lemma_start(m: Matrix, a: DispenserAddress, compressor_on: bool)
    requires
        settled(m, false),
        drive_bytes(a) is Some,
    ensures
        energized(a, compressor_on, m.run(start_ops(a, compressor_on))),
        !m.run(start_ops(a, compressor_on)).oe,
        clear_count(start_ops(a, compressor_on)) == 0,
{
    lemma_drive(m, a, compressor_on);
    let m1 = m.run(drive_ops(a, compressor_on));
    lemma_buffer(m1, true);
    lemma_buffer_shape(true);
    lemma_run_concat(m, drive_ops(a, compressor_on), buffer_ops(true));
    lemma_clear_count_concat(drive_ops(a, compressor_on), buffer_ops(true));
}

/// Powering a motor and reading one sensor bit, from quiet lines, leaves
/// that motor powered and the buffer driving outward.
pub proof fn lemma_drive_and_read(m: Matrix, a: DispenserAddress, index: u8, compressor_on: bool)
    requires
        settled(m, false),
        drive_bytes(a) is Some,
    ensures
        energized(
            a,
            compressor_on,
            m.run(drive_ops(a, compressor_on) + sensor_read_ops(index)),
        ),
        m.run(drive_ops(a, compressor_on) + sensor_read_ops(index)).oe,
        clear_count(drive_ops(a, compressor_on) + sensor_read_ops(index)) == 0,
{
    lemma_drive(m, a, compressor_on);
    let m1 = m.run(drive_ops(a, compressor_on));
    lemma_sensor_read(m1, index);
    lemma_sensor_read_shape(index);
    lemma_run_concat(m, drive_ops(a, compressor_on), sensor_read_ops(index));
    lemma_clear_count_concat(drive_ops(a, compressor_on), sensor_read_ops(index));
}

/// A status query never breaks the bus discipline and never touches the
/// clear line: started on an idle matrix, it keeps the motor powered only
/// while it reads, and leaves the matrix idle when it is done.
pub proof fn lemma_status_begin(m: Matrix, a: DispenserAddress, compressor_on: bool)
    requires
        m.idle(compressor_on),
    ensures
        ({
            let step = status_begin(a, compressor_on);
            &&& step.next.wf()
            &&& step.next.matrix_inv(compressor_on, m.run(step.ops))
            &&& clear_count(step.ops) == 0
            &&& !wired(a) ==> step.ops.len() == 0 && step.next.result is None
        }),
{
    if wired(a) {
        lemma_wired_is_calculable(a);
        lemma_drive_and_read(m, a, home_sensor_index(a), compressor_on);
    }
}

/// Each further step of a status query keeps what `lemma_status_begin`
/// established.
pub proof fn lemma_status_advance(m: Matrix, q: StatusQuery, compressor_on: bool, high: bool)
    requires
        q.wf(),
        q.matrix_inv(compressor_on, m),
    ensures
        ({
            let step = status_advance(q, compressor_on, high);
            &&& step.next.wf()
            &&& step.next.matrix_inv(compressor_on, m.run(step.ops))
            &&& clear_count(step.ops) == 0
        }),
{
    let step = status_advance(q, compressor_on, high);
    if q.phase != StatusPhase::Done {
        lemma_wired_is_calculable(q.address);
        if step.next.phase == StatusPhase::Done {
            lemma_stop(m, compressor_on);
        } else {
            lemma_sensor_read(m, step.wait->Sampled_index);
            lemma_sensor_read_shape(step.wait->Sampled_index);
        }
    }
}

/// The first step of a dispense cycle, performed on an idle matrix, leaves
/// the matrix as the phase of the cycle says, and never touches the clear
/// line. An address at which nothing is wired ends the cycle at once, with
/// `InvalidAddress` and no operation at all.
pub proof fn lemma_dispense_begin(
    m: Matrix,
    a: DispenserAddress,
    omit_checks: bool,
    compressor_on: bool,
)
    requires
        m.idle(compressor_on),
    ensures
        ({
            let step = dispense_begin(a, omit_checks, compressor_on);
            &&& step.next.wf()
            &&& step.next.matrix_inv(compressor_on, m.run(step.ops))
            &&& clear_count(step.ops) == 0
            &&& !wired(a) ==> step.ops.len() == 0 && step.next.spec_outcome() == Some(
                Err::<(), VendError>(VendError::InvalidAddress),
            )
        }),
{
    if wired(a) {
        lemma_wired_is_calculable(a);
        if omit_checks {
            lemma_start(m, a, compressor_on);
        } else {
            lemma_drive_and_read(m, a, home_sensor_index(a), compressor_on);
        }
    }
}

/// Each further step of a dispense cycle, performed on a matrix that is as
/// the phase of the cycle says, leaves the matrix as the next phase says, and
/// never touches the clear line.
pub proof fn lemma_dispense_advance(m: Matrix, cycle: DispenseCycle, compressor_on: bool, met: bool)
    requires
        cycle.wf(),
        cycle.matrix_inv(compressor_on, m),
    ensures
        ({
            let step = dispense_advance(cycle, compressor_on, met);
            &&& step.next.wf()
            &&& step.next.matrix_inv(compressor_on, m.run(step.ops))
            &&& clear_count(step.ops) == 0
        }),
{
    let a = cycle.address;
    let step = dispense_advance(cycle, compressor_on, met);
    match cycle.phase {
        DispensePhase::PreflightHome | DispensePhase::PreflightCan => {
            lemma_wired_is_calculable(a);
            if step.next.phase == DispensePhase::Finished {
                lemma_stop(m, compressor_on);
            } else if step.next.phase == DispensePhase::PreflightCan {
                lemma_sensor_read(m, step.wait->Sampled_index);
                lemma_sensor_read_shape(step.wait->Sampled_index);
            } else {
                lemma_start(m, a, compressor_on);
            }
        },
        DispensePhase::LeavingHome | DispensePhase::ReturningHome => {
            lemma_finish(m, compressor_on);
        },
        _ => {},
    }
}

/// A dispense cycle from its first step through a sequence of reports: the
/// state it has reached, every operation it has handed out, and the wait of
/// its last step.
pub open spec fn dispense_run(
    a: DispenserAddress,
    omit_checks: bool,
    compressor_on: bool,
    reports: Seq<bool>,
) -> StepModel<DispenseCycle>
    decreases reports.len(),
{
    if reports.len() == 0 {
        dispense_begin(a, omit_checks, compressor_on)
    } else {
        let before = dispense_run(a, omit_checks, compressor_on, reports.drop_last());
        let step = dispense_advance(before.next, compressor_on, reports.last());
        StepModel { next: step.next, ops: before.ops + step.ops, wait: step.wait }
    }
}

/// The steps that a cycle has before it at most.
pub open spec fn steps_left(phase: DispensePhase) -> int {
    match phase {
        DispensePhase::PreflightHome => 5,
        DispensePhase::PreflightCan => 4,
        DispensePhase::LeavingHome => 3,
        DispensePhase::Debouncing => 2,
        DispensePhase::ReturningHome => 1,
        DispensePhase::Finished => 0,
    }
}

/// The time that a cycle can still spend waiting for its motor, in
/// milliseconds, the wait of its present phase included.
pub open spec fn wait_left_ms(phase: DispensePhase) -> int {
    match phase {
        DispensePhase::PreflightHome | DispensePhase::PreflightCan | DispensePhase::LeavingHome =>
            LEAVE_HOME_MS + DEBOUNCE_MS + RETURN_HOME_MS,
        DispensePhase::Debouncing => DEBOUNCE_MS + RETURN_HOME_MS,
        DispensePhase::ReturningHome => RETURN_HOME_MS as int,
        DispensePhase::Finished => 0,
    }
}

/// The longest that a wait can last, in milliseconds; a sample is read at once.
pub open spec fn wait_ms(wait: Await) -> int {
    match wait {
        Await::Low { within_ms, .. } => within_ms as int,
        Await::High { within_ms, .. } => within_ms as int,
        Await::Sleep { ms } => ms as int,
        _ => 0,
    }
}

/// Every dispense cycle on every path, whatever the sensors report.
///
/// Started on an idle matrix and run through any sequence of reports, the
/// cycle never breaks the bus discipline and never touches the clear line;
/// once it is finished the latches hold nothing but the compressor bit and
/// the buffer drives outward; and it is finished after five reports at
/// the latest.
pub proof fn lemma_dispense_run(
    m: Matrix,
    a: DispenserAddress,
    omit_checks: bool,
    compressor_on: bool,
    reports: Seq<bool>,
)
    requires
        m.idle(compressor_on),
    ensures
        ({
            let run = dispense_run(a, omit_checks, compressor_on, reports);
            let after = m.run(run.ops);
            &&& run.next.wf()
            &&& run.next.matrix_inv(compressor_on, after)
            &&& !after.fault
            &&& clear_count(run.ops) == 0
            &&& run.next.phase == DispensePhase::Finished ==> after.idle(compressor_on) && after.oe
                && after.holds(with_compressor(0, compressor_on), 0, 0)
            &&& steps_left(run.next.phase) + reports.len() <= 5 || run.next.phase
                == DispensePhase::Finished
            &&& reports.len() >= 5 ==> run.next.phase == DispensePhase::Finished
            &&& run.next.phase == DispensePhase::Finished ==> run.wait == Await::Nothing
        }),
    decreases reports.len(),
{
    if reports.len() == 0 {
        lemma_dispense_begin(m, a, omit_checks, compressor_on);
        if wired(a) {
            lemma_wired_is_calculable(a);
        }
    } else {
        lemma_dispense_run(m, a, omit_checks, compressor_on, reports.drop_last());
        let before = dispense_run(a, omit_checks, compressor_on, reports.drop_last());
        let step = dispense_advance(before.next, compressor_on, reports.last());
        lemma_dispense_advance(m.run(before.ops), before.next, compressor_on, reports.last());
        lemma_run_concat(m, before.ops, step.ops);
        lemma_clear_count_concat(before.ops, step.ops);
        if before.next.phase != DispensePhase::Finished {
            lemma_wired_is_calculable(before.next.address);
        }
    }
}

/// A dispense cycle is bounded in time: each step hands out a wait of at
/// most the deadline of its phase, one second to leave home, half a second of
/// debounce, two and a half seconds to return, and what the cycle can still
/// wait shrinks by the wait that has passed. No cycle waits longer than
/// four seconds in all.
pub proof fn lemma_dispense_is_bounded(cycle: DispenseCycle, compressor_on: bool, met: bool)
    requires
        cycle.wf(),
    ensures
        ({
            let step = dispense_advance(cycle, compressor_on, met);
            &&& steps_left(step.next.phase) < steps_left(cycle.phase) || cycle.phase
                == DispensePhase::Finished
            &&& wait_ms(step.wait) <= wait_left_ms(step.next.phase)
            &&& wait_left_ms(step.next.phase) <= wait_left_ms(cycle.phase)
            &&& step.wait matches Await::Low { within_ms, .. } ==> within_ms == LEAVE_HOME_MS
                && step.next.phase == DispensePhase::LeavingHome
            &&& step.wait matches Await::Sleep { ms } ==> ms == DEBOUNCE_MS && step.next.phase
                == DispensePhase::Debouncing && wait_left_ms(step.next.phase) + LEAVE_HOME_MS
                == wait_left_ms(cycle.phase)
            &&& step.wait matches Await::High { within_ms, .. } ==> within_ms == RETURN_HOME_MS
                && step.next.phase == DispensePhase::ReturningHome && wait_left_ms(
                step.next.phase,
            ) + DEBOUNCE_MS == wait_left_ms(cycle.phase)
            &&& wait_left_ms(cycle.phase) <= 4000
        }),
{
}

/// A motor that does not leave home within its deadline ends the cycle
/// with `MotorStuckHome`, and the operations that clear the latches take 26
/// microseconds, far less than fifty milliseconds.
pub proof fn lemma_stuck_home_clears_promptly(m: Matrix, cycle: DispenseCycle, compressor_on: bool)
    requires
        cycle.wf(),
        cycle.phase == DispensePhase::LeavingHome,
        cycle.matrix_inv(compressor_on, m),
    ensures
        ({
            let step = dispense_advance(cycle, compressor_on, false);
            &&& step.next.spec_outcome() == Some(Err::<(), VendError>(VendError::MotorStuckHome))
            &&& m.run(step.ops).idle(compressor_on)
            &&& total_delay_us(step.ops) == 26
            &&& total_delay_us(step.ops) <= 50_000
        }),
{
    lemma_finish(m, compressor_on);
}

/// A row below `A`, or a column above `9`, is no wired address.
pub proof fn lemma_off_table_addresses(a: DispenserAddress)
    requires
        a.row == '@' || a.col == ':',
    ensures
        !wired(a),
        dispense_begin(a, false, false).ops.len() == 0,
        dispense_begin(a, true, true).ops.len() == 0,
{
}

/// Setting the compressor on an idle matrix leaves it idle with the new
/// flag: the compressor bit is the only latch bit that changes.
pub proof fn lemma_set_chiller(m: Matrix, before: bool, status: bool)
    requires
        m.idle(before),
    ensures
        m.run(stop_ops(status)).idle(status),
{
    lemma_stop(m, status);
}

/// A status query is read-only and repeatable: on an idle matrix it ends
/// after the home sensor, and for a can chute the can sensor, have been
/// read; its result is the dispenser that these two levels describe, and
/// nothing else goes into it; and the matrix is left exactly as it was, so
/// that the next query starts from the same state.
pub proof fn lemma_status_is_repeatable(
    m: Matrix,
    a: DispenserAddress,
    compressor_on: bool,
    home: bool,
    can: bool,
)
    requires
        m.idle(compressor_on),
        wired(a),
    ensures
        ({
            let s0 = status_begin(a, compressor_on);
            let s1 = status_advance(s0.next, compressor_on, home);
            let s2 = status_advance(s1.next, compressor_on, can);
            let status = if home {
                crate::dispenser::MotorStatus::Home
            } else {
                crate::dispenser::MotorStatus::MotorNotHome
            };
            &&& is_can_row(a) ==> s2.next.phase == StatusPhase::Done && s2.next.result == Some(
                assembled(a, status, Some(can)),
            ) && m.run(s0.ops).run(s1.ops).run(s2.ops) == m
            &&& !is_can_row(a) ==> s1.next.phase == StatusPhase::Done && s1.next.result == Some(
                assembled(a, status, None),
            ) && m.run(s0.ops).run(s1.ops) == m
        }),
{
    let s0 = status_begin(a, compressor_on);
    let s1 = status_advance(s0.next, compressor_on, home);
    let s2 = status_advance(s1.next, compressor_on, can);
    lemma_status_begin(m, a, compressor_on);
    lemma_status_advance(m.run(s0.ops), s0.next, compressor_on, home);
    if is_can_row(a) {
        lemma_status_advance(m.run(s0.ops).run(s1.ops), s1.next, compressor_on, can);
    }
}

} // verus!
