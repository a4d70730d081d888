use snackbot::dispenser::{
    CanStatus, Dispenser, DispenserAddress, DispenserType, MotorStatus, VendError,
};
use snackbot::matrix::{Matrix, PinOp};
use snackbot::motor_driver::{
    Await, DispenseCycle, DispensePhase, MotorDriver, StatusPhase, Step,
};

fn at(row: char, col: char) -> DispenserAddress {
    DispenserAddress { row, col }
}

fn booted(chiller_on: bool) -> (MotorDriver, Matrix) {
    let (mut driver, boot) = MotorDriver::new();
    let mut m = Matrix::new();
    m.perform_all(&boot);
    if chiller_on {
        m.perform_all(&driver.set_chiller_on(true));
    }
    (driver, m)
}

fn total_delay(ops: &Vec<PinOp>) -> u64 {
    let mut total = 0u64;
    for op in ops {
        if let PinOp::DelayMicros(us) = op {
            total += *us as u64;
        }
    }
    total
}

fn run_cycle(
    driver: &MotorDriver,
    m: &mut Matrix,
    addr: DispenserAddress,
    omit_checks: bool,
    reports: &[bool],
) -> (DispenseCycle, Vec<Await>) {
    let (mut cycle, step) = driver.dispense(addr, omit_checks);
    let mut waits = vec![step.wait];
    m.perform_all(&step.ops);
    for met in reports {
        let step: Step = cycle.advance(driver, *met);
        m.perform_all(&step.ops);
        assert!(!m.fault);
        waits.push(step.wait);
    }
    (cycle, waits)
}

#[test]
fn drive_bytes_of_spiral_rows() {
    assert_eq!(MotorDriver::calc_drive_bytes(at('A', '0')), Ok([0x00, 0x01, 0x01]));
    assert_eq!(MotorDriver::calc_drive_bytes(at('A', '1')), Ok([0x00, 0x01, 0x02]));
    assert_eq!(MotorDriver::calc_drive_bytes(at('B', '2')), Ok([0x00, 0x02, 0x04]));
    assert_eq!(MotorDriver::calc_drive_bytes(at('C', '3')), Ok([0x00, 0x02, 0x20]));
    assert_eq!(MotorDriver::calc_drive_bytes(at('C', '7')), Ok([0x00, 0x08, 0x20]));
    assert_eq!(MotorDriver::calc_drive_bytes(at('D', '9')), Ok([0x00, 0x10, 0x80]));
    assert_eq!(MotorDriver::calc_drive_bytes(at('D', '8')), Ok([0x00, 0x10, 0x40]));
}

#[test]
fn drive_bytes_of_can_rows_use_even_wiring() {
    assert_eq!(MotorDriver::calc_drive_bytes(at('E', '0')), Ok([0x01, 0x01, 0x00]));
    assert_eq!(MotorDriver::calc_drive_bytes(at('E', '1')), Ok([0x01, 0x02, 0x00]));
    assert_eq!(MotorDriver::calc_drive_bytes(at('E', '3')), Ok([0x01, 0x08, 0x00]));
    assert_eq!(MotorDriver::calc_drive_bytes(at('F', '0')), Ok([0x04, 0x01, 0x00]));
    assert_eq!(MotorDriver::calc_drive_bytes(at('F', '4')), Ok([0x04, 0x10, 0x00]));
}

#[test]
fn drive_bytes_of_gum_row_share_bit_five() {
    assert_eq!(MotorDriver::calc_drive_bytes(at('G', '0')), Ok([0x00, 0x21, 0x00]));
    assert_eq!(MotorDriver::calc_drive_bytes(at('G', '5')), Ok([0x00, 0x24, 0x00]));
}

#[test]
fn drive_bytes_reject_what_cannot_be_wired() {
    assert_eq!(MotorDriver::calc_drive_bytes(at('@', '0')), Err(()));
    assert_eq!(MotorDriver::calc_drive_bytes(at('H', '0')), Err(()));
    assert_eq!(MotorDriver::calc_drive_bytes(at('a', '0')), Err(()));
    assert_eq!(MotorDriver::calc_drive_bytes(at('A', ':')), Err(()));
    assert_eq!(MotorDriver::calc_drive_bytes(at('A', '/')), Err(()));
    assert_eq!(MotorDriver::calc_drive_bytes(at('E', '5')), Err(()));
    assert_eq!(MotorDriver::calc_drive_bytes(at('F', '9')), Err(()));
}

#[test]
fn home_sensor_lines() {
    assert_eq!(MotorDriver::motor_homed_gpio_index(at('A', '0')), 0);
    assert_eq!(MotorDriver::motor_homed_gpio_index(at('C', '3')), 1);
    assert_eq!(MotorDriver::motor_homed_gpio_index(at('C', '4')), 0);
    assert_eq!(MotorDriver::motor_homed_gpio_index(at('E', '1')), 4);
    assert_eq!(MotorDriver::motor_homed_gpio_index(at('F', '3')), 6);
    assert_eq!(MotorDriver::motor_homed_gpio_index(at('A', 'x')), 0);
}

#[test]
fn can_sensor_lines() {
    assert_eq!(MotorDriver::can_status_gpio_index(at('E', '0')), Some(5));
    assert_eq!(MotorDriver::can_status_gpio_index(at('F', '0')), Some(7));
    assert_eq!(MotorDriver::can_status_gpio_index(at('A', '0')), None);
}

#[test]
fn table_has_the_twenty_four_wired_dispensers() {
    let table = MotorDriver::valid_addresses();
    assert_eq!(table.len(), 24);
    let mut count = 0;
    for row in ['@', 'A', 'B', 'C', 'D', 'E', 'F', 'G', 'H'] {
        for col in ['/', '0', '1', '2', '3', '4', '5', '6', '7', '8', '9', ':'] {
            let a = at(row, col);
            assert_eq!(MotorDriver::is_address_valid(a), table.contains(&a));
            if MotorDriver::is_address_valid(a) {
                count += 1;
                assert!(MotorDriver::calc_drive_bytes(a).is_ok());
            }
        }
    }
    assert_eq!(count, 24);
    assert!(MotorDriver::is_address_valid(at('A', '6')));
    assert!(!MotorDriver::is_address_valid(at('A', '1')));
    assert!(MotorDriver::is_address_valid(at('C', '7')));
    assert!(!MotorDriver::is_address_valid(at('C', '8')));
    assert!(!MotorDriver::is_address_valid(at('D', '0')));
    assert!(MotorDriver::is_address_valid(at('F', '3')));
    assert!(!MotorDriver::is_address_valid(at('F', '4')));
    assert!(!MotorDriver::is_address_valid(at('G', '0')));
}

#[test]
fn dispenser_types_by_row() {
    assert_eq!(MotorDriver::dispenser_type(at('A', '0')), DispenserType::Spiral);
    assert_eq!(MotorDriver::dispenser_type(at('E', '0')), DispenserType::Can);
    assert_eq!(MotorDriver::dispenser_type(at('F', '3')), DispenserType::Can);
}

#[test]
fn is_dispensable_checks_motor_then_cans() {
    let (driver, _) = booted(false);
    let spiral = Dispenser {
        address: at('A', '0'),
        dispenser_type: DispenserType::Spiral,
        motor_status: MotorStatus::Home,
        can_status: None,
    };
    assert_eq!(driver.is_dispensable(spiral), Ok(()));
    assert_eq!(
        driver.is_dispensable(Dispenser { motor_status: MotorStatus::MotorNotHome, ..spiral }),
        Err(VendError::MotorNotHome)
    );
    let can = Dispenser {
        address: at('E', '0'),
        dispenser_type: DispenserType::Can,
        motor_status: MotorStatus::Home,
        can_status: Some(CanStatus::Stocked),
    };
    assert_eq!(driver.is_dispensable(can), Ok(()));
    assert_eq!(
        driver.is_dispensable(Dispenser { can_status: Some(CanStatus::LastCan), ..can }),
        Err(VendError::OneOrNoCansLeft)
    );
    assert_eq!(
        driver.is_dispensable(Dispenser {
            motor_status: MotorStatus::MotorNotHome,
            can_status: Some(CanStatus::LastCan),
            ..can
        }),
        Err(VendError::MotorNotHome)
    );
}

#[test]
fn pulse_powers_reads_and_stops() {
    let (driver, mut m) = booted(false);
    let ops = driver.pulse_motor_and_read_gpio(at('C', '3'), 1);
    assert_eq!(ops.len(), 16 + 5 + 16);
    assert_eq!(ops[0], PinOp::DriveBus(0x00));
    assert_eq!(ops[5], PinOp::DriveBus(0x02));
    assert_eq!(ops[10], PinOp::DriveBus(0x20));
    assert_eq!(ops[18], PinOp::Sample { index: 1 });
    m.perform_all(&ops);
    assert_eq!(m, Matrix::new());
}

#[test]
fn status_query_of_unwired_address_does_nothing() {
    let (driver, _) = booted(false);
    let (query, step) = driver.get_dispenser(at('D', '0'));
    assert!(query.is_done());
    assert_eq!(query.result, None);
    assert_eq!(step, Step { ops: vec![], wait: Await::Nothing });
}

#[test]
fn status_query_of_spiral() {
    let (driver, mut m) = booted(false);
    let (mut query, step) = driver.get_dispenser(at('B', '4'));
    assert_eq!(step.wait, Await::Sampled { index: 0 });
    m.perform_all(&step.ops);
    assert!(m.motor_energized());
    assert_eq!((m.u2, m.u3, m.u4), (0x00, 0x04, 0x04));
    let step = query.advance(&driver, false);
    assert_eq!(step.wait, Await::Nothing);
    m.perform_all(&step.ops);
    assert!(query.is_done());
    assert_eq!(
        query.result,
        Some(Dispenser {
            address: at('B', '4'),
            dispenser_type: DispenserType::Spiral,
            motor_status: MotorStatus::MotorNotHome,
            can_status: None,
        })
    );
    assert_eq!(m, Matrix::new());
}

#[test]
fn status_query_of_can_reads_both_sensors() {
    let (driver, mut m) = booted(true);
    let idle = m;
    let (mut query, step) = driver.get_dispenser(at('F', '1'));
    assert_eq!(step.wait, Await::Sampled { index: 6 });
    m.perform_all(&step.ops);
    assert_eq!((m.u2, m.u3, m.u4), (0x14, 0x02, 0x00));
    let step = query.advance(&driver, true);
    assert_eq!(query.phase, StatusPhase::Can);
    assert_eq!(step.wait, Await::Sampled { index: 7 });
    m.perform_all(&step.ops);
    assert!(m.motor_energized());
    let step = query.advance(&driver, false);
    m.perform_all(&step.ops);
    assert_eq!(
        query.result,
        Some(Dispenser {
            address: at('F', '1'),
            dispenser_type: DispenserType::Can,
            motor_status: MotorStatus::Home,
            can_status: Some(CanStatus::LastCan),
        })
    );
    assert_eq!(m, idle);
    assert!(m.compressor_energized());
    let again = query.advance(&driver, true);
    assert_eq!(again, Step { ops: vec![], wait: Await::Nothing });
}

#[test]
fn status_query_is_repeatable() {
    let (driver, mut m) = booted(false);
    let mut results = vec![];
    for _ in 0..3 {
        let (mut query, step) = driver.get_dispenser(at('E', '2'));
        m.perform_all(&step.ops);
        let step = query.advance(&driver, true);
        m.perform_all(&step.ops);
        let step = query.advance(&driver, true);
        m.perform_all(&step.ops);
        assert_eq!(m, Matrix::new());
        results.push(query.result);
    }
    assert_eq!(results[0], results[1]);
    assert_eq!(results[1], results[2]);
    assert_eq!(
        results[0],
        Some(Dispenser {
            address: at('E', '2'),
            dispenser_type: DispenserType::Can,
            motor_status: MotorStatus::Home,
            can_status: Some(CanStatus::Stocked),
        })
    );
}

#[test]
fn dispense_happy_path_checked_spiral() {
    let (driver, mut m) = booted(false);
    let (cycle, waits) = run_cycle(&driver, &mut m, at('A', '0'), false, &[true, true, true, true]);
    assert_eq!(
        waits,
        vec![
            Await::Sampled { index: 0 },
            Await::Low { index: 0, within_ms: 1000 },
            Await::Sleep { ms: 500 },
            Await::High { index: 0, within_ms: 2500 },
            Await::Nothing,
        ]
    );
    assert_eq!(cycle.outcome(), Some(Ok(())));
    assert_eq!(m, Matrix::new());
}

#[test]
fn dispense_happy_path_checked_can() {
    let (driver, mut m) = booted(true);
    let idle = m;
    let (cycle, waits) =
        run_cycle(&driver, &mut m, at('E', '3'), false, &[true, true, true, true, true]);
    assert_eq!(
        waits,
        vec![
            Await::Sampled { index: 4 },
            Await::Sampled { index: 5 },
            Await::Low { index: 4, within_ms: 1000 },
            Await::Sleep { ms: 500 },
            Await::High { index: 4, within_ms: 2500 },
            Await::Nothing,
        ]
    );
    assert_eq!(cycle.outcome(), Some(Ok(())));
    assert_eq!(m, idle);
    assert_eq!((m.u2, m.u3, m.u4), (0x10, 0, 0));
}

#[test]
fn dispense_forced_skips_preflight() {
    let (driver, mut m) = booted(false);
    let (mut cycle, step) = driver.dispense(at('C', '5'), true);
    assert_eq!(cycle.phase, DispensePhase::LeavingHome);
    assert_eq!(step.wait, Await::Low { index: 1, within_ms: 1000 });
    m.perform_all(&step.ops);
    assert!(m.motor_energized());
    assert!(!m.oe);
    assert_eq!((m.u2, m.u3, m.u4), (0x00, 0x04, 0x20));
    assert_eq!(cycle.outcome(), None);
    let step = cycle.advance(&driver, true);
    assert_eq!(step, Step { ops: vec![], wait: Await::Sleep { ms: 500 } });
    let step = cycle.advance(&driver, false);
    assert_eq!(step, Step { ops: vec![], wait: Await::High { index: 1, within_ms: 2500 } });
    assert!(m.motor_energized());
    let step = cycle.advance(&driver, true);
    m.perform_all(&step.ops);
    assert_eq!(cycle.outcome(), Some(Ok(())));
    assert_eq!(m, Matrix::new());
}

#[test]
fn dispense_invalid_address_touches_nothing() {
    let (driver, _) = booted(false);
    for a in [at('@', '0'), at('A', ':'), at('D', '0'), at('G', '1'), at('A', '1')] {
        for omit_checks in [false, true] {
            let (mut cycle, step) = driver.dispense(a, omit_checks);
            assert_eq!(step, Step { ops: vec![], wait: Await::Nothing });
            assert_eq!(cycle.outcome(), Some(Err(VendError::InvalidAddress)));
            let step = cycle.advance(&driver, true);
            assert_eq!(step, Step { ops: vec![], wait: Await::Nothing });
            assert_eq!(cycle.outcome(), Some(Err(VendError::InvalidAddress)));
        }
    }
}

#[test]
fn dispense_motor_not_home_before_start() {
    let (driver, mut m) = booted(false);
    let (cycle, waits) = run_cycle(&driver, &mut m, at('B', '0'), false, &[false]);
    assert_eq!(waits, vec![Await::Sampled { index: 0 }, Await::Nothing]);
    assert_eq!(cycle.outcome(), Some(Err(VendError::MotorNotHome)));
    assert_eq!(m, Matrix::new());
}

#[test]
fn dispense_last_can_stops_after_preflight() {
    let (driver, mut m) = booted(false);
    let (mut cycle, step) = driver.dispense(at('E', '0'), false);
    m.perform_all(&step.ops);
    let step = cycle.advance(&driver, true);
    assert_eq!(step.wait, Await::Sampled { index: 5 });
    m.perform_all(&step.ops);
    let step = cycle.advance(&driver, false);
    assert_eq!(step.wait, Await::Nothing);
    assert_eq!(step.ops.len(), 16);
    m.perform_all(&step.ops);
    assert_eq!(cycle.outcome(), Some(Err(VendError::OneOrNoCansLeft)));
    assert_eq!(m, Matrix::new());
    assert!(!m.motor_energized());
}

#[test]
fn dispense_motor_stuck_home_clears_latches_promptly() {
    let (driver, mut m) = booted(true);
    let idle = m;
    let (mut cycle, step) = driver.dispense(at('C', '3'), true);
    m.perform_all(&step.ops);
    assert!(m.motor_energized());
    let step = cycle.advance(&driver, false);
    assert_eq!(step.wait, Await::Nothing);
    assert_eq!(total_delay(&step.ops), 26);
    assert!(total_delay(&step.ops) <= 50_000);
    m.perform_all(&step.ops);
    assert_eq!(cycle.outcome(), Some(Err(VendError::MotorStuckHome)));
    assert_eq!(m, idle);
    assert!(!m.motor_energized());
    assert!(m.oe);
}

#[test]
fn dispense_motor_stuck_not_home() {
    let (driver, mut m) = booted(false);
    let (cycle, waits) = run_cycle(&driver, &mut m, at('A', '2'), true, &[true, true, false]);
    assert_eq!(waits.len(), 4);
    assert_eq!(cycle.outcome(), Some(Err(VendError::MotorStuckNotHome)));
    assert_eq!(m, Matrix::new());
}

#[test]
fn every_path_ends_idle_within_five_reports() {
    let table = MotorDriver::valid_addresses();
    for chiller_on in [false, true] {
        for a in table {
            for omit_checks in [false, true] {
                for pattern in 0u8..32 {
                    let (driver, mut m) = booted(chiller_on);
                    let idle = m;
                    let reports: Vec<bool> = (0..5).map(|i| pattern & (1 << i) != 0).collect();
                    let (cycle, waits) = run_cycle(&driver, &mut m, a, omit_checks, &reports);
                    assert!(cycle.outcome().is_some());
                    assert_eq!(cycle.phase, DispensePhase::Finished);
                    assert_eq!(waits[5], Await::Nothing);
                    assert_eq!(m, idle);
                    assert!(m.oe);
                    assert_eq!((m.u2, m.u3, m.u4), (if chiller_on { 0x10 } else { 0 }, 0, 0));
                }
            }
        }
    }
}

#[test]
fn set_chiller_on_writes_only_the_compressor_bit() {
    let (mut driver, mut m) = booted(false);
    let ops = driver.set_chiller_on(true);
    assert!(driver.chiller_on);
    m.perform_all(&ops);
    assert_eq!((m.u2, m.u3, m.u4), (0x10, 0, 0));
    assert_eq!(driver.stop_motors(), ops);
    let ops = driver.set_chiller_on(false);
    m.perform_all(&ops);
    assert_eq!(m, Matrix::new());
    assert_eq!(driver.write_bytes([0x01, 0x02, 0x03])[0], PinOp::DriveBus(0x01));
    assert_eq!(driver.drive_motor(at('E', '0'))[0], PinOp::DriveBus(0x01));
}

#[test]
fn compressor_keeps_running_through_a_dispense() {
    let (driver, mut m) = booted(true);
    let (mut cycle, step) = driver.dispense(at('E', '0'), true);
    m.perform_all(&step.ops);
    assert_eq!((m.u2, m.u3, m.u4), (0x11, 0x01, 0x00));
    assert!(m.compressor_energized());
    let _ = cycle.advance(&driver, true);
    let _ = cycle.advance(&driver, true);
    let step = cycle.advance(&driver, true);
    m.perform_all(&step.ops);
    assert!(m.compressor_energized());
    assert!(!m.motor_energized());
}
