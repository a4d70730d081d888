use snackbot::chiller::{
    adc_millivolts, average, chiller_task, thermistor_ohms, Chiller, ChillerState,
    CHILLER_MIN_CYCLE_COUNT, DEFAULT_TEMPERATURE_SETPOINT, HYSTERESIS,
};

#[test]
fn chiller_starts_at_eight_degrees_with_compressor_off() {
    let c = Chiller::new();
    assert_eq!(
        c.state,
        ChillerState { setpoint_c: 8_000, current_c: 0, compressor_on: false }
    );
    assert_eq!(c.due_in, 0);
    assert_eq!(DEFAULT_TEMPERATURE_SETPOINT, 8_000);
    assert_eq!(HYSTERESIS, 500);
    assert_eq!(CHILLER_MIN_CYCLE_COUNT, 5);
}

#[test]
fn average_of_ten_readings() {
    assert_eq!(average(&[0; 10]), 0);
    assert_eq!(average(&[4095; 10]), 4095);
    assert_eq!(average(&[65535; 10]), 65535);
    assert_eq!(average(&[1, 2, 3, 4, 5, 6, 7, 8, 9, 10]), 5);
    assert_eq!(average(&[2000, 2001, 2002, 2003, 2004, 2005, 2006, 2007, 2008, 2009]), 2004);
}

#[test]
fn reading_to_millivolts() {
    assert_eq!(adc_millivolts(0), 0);
    assert_eq!(adc_millivolts(4095), 3300);
    assert_eq!(adc_millivolts(2048), 1650);
    assert_eq!(adc_millivolts(1000), 805);
    assert_eq!(adc_millivolts(65535), 52812);
}

#[test]
fn millivolts_to_ohms() {
    assert_eq!(thermistor_ohms(0), Some(0));
    assert_eq!(thermistor_ohms(1650), Some(10_000));
    assert_eq!(thermistor_ohms(1100), Some(5_000));
    assert_eq!(thermistor_ohms(805), Some(3_226));
    assert_eq!(thermistor_ohms(3299), Some(32_990_000));
    assert_eq!(thermistor_ohms(3300), None);
    assert_eq!(thermistor_ohms(52812), None);
}

#[test]
fn within_band_nothing_changes() {
    let mut c = Chiller::new();
    for _ in 0..12 {
        assert_eq!(chiller_task(&mut c, Some(8_400)), None);
        assert!(!c.state.compressor_on);
        assert_eq!(c.state.current_c, 8_400);
    }
    let mut c = Chiller::new();
    assert_eq!(chiller_task(&mut c, Some(8_500)), None);
    assert!(!c.state.compressor_on);
}

#[test]
fn sustained_demand_switches_compressor_on() {
    for start in 0..5u8 {
        let mut c = Chiller::new();
        c.due_in = start;
        let mut switches = vec![];
        for _ in 0..5 {
            switches.extend(chiller_task(&mut c, Some(8_600)));
        }
        assert_eq!(switches, vec![true]);
        assert!(c.state.compressor_on);
    }
}

#[test]
fn first_measurement_decides() {
    let mut c = Chiller::new();
    assert_eq!(chiller_task(&mut c, Some(8_501)), Some(true));
    assert!(c.state.compressor_on);
    assert_eq!(c.due_in, 4);
}

#[test]
fn compressor_goes_off_at_next_decision() {
    let mut c = Chiller::new();
    assert_eq!(chiller_task(&mut c, Some(9_000)), Some(true));
    for _ in 0..4 {
        assert_eq!(chiller_task(&mut c, Some(7_900)), None);
        assert!(c.state.compressor_on);
    }
    assert_eq!(chiller_task(&mut c, Some(7_900)), Some(false));
    assert!(!c.state.compressor_on);
}

#[test]
fn demand_between_decisions_is_free_to_change() {
    let mut c = Chiller::new();
    assert_eq!(chiller_task(&mut c, Some(7_000)), None);
    assert_eq!(chiller_task(&mut c, Some(12_000)), None);
    assert_eq!(chiller_task(&mut c, Some(7_000)), None);
    assert_eq!(chiller_task(&mut c, Some(12_000)), None);
    assert_eq!(chiller_task(&mut c, Some(7_000)), None);
    assert_eq!(chiller_task(&mut c, Some(7_000)), None);
    assert!(!c.state.compressor_on);
}

#[test]
fn failed_measurement_changes_nothing() {
    let mut c = Chiller::new();
    let before = c;
    assert_eq!(chiller_task(&mut c, None), None);
    assert_eq!(c, before);
    let _ = chiller_task(&mut c, Some(9_000));
    let before = c;
    assert_eq!(chiller_task(&mut c, None), None);
    assert_eq!(c, before);
}

#[test]
fn extreme_temperatures_do_not_overflow() {
    let mut c = Chiller::new();
    c.state.setpoint_c = i32::MAX;
    assert_eq!(chiller_task(&mut c, Some(i32::MAX)), None);
    let mut c = Chiller::new();
    c.state.setpoint_c = i32::MIN;
    assert_eq!(chiller_task(&mut c, Some(i32::MIN + 501)), Some(true));
}
