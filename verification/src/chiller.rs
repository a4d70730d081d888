//! The chiller: the thermistor reading is averaged and turned into a
//! resistance, and the compressor follows the temperature through a
//! threshold above the setpoint, switched no more often than the compressor
//! can bear.
//!
//! Temperatures are fixed-point numbers: thousandths of a degree Celsius in
//! an `i32`. The step from the resistance to the temperature is a
//! logarithmic curve and is not taken here.

use vstd::prelude::*;

verus! {

/// The setpoint that the chiller starts with: 8.0 degrees.
pub const DEFAULT_TEMPERATURE_SETPOINT: i32 = 8_000;

/// How far above the setpoint the temperature has to be for the
/// compressor to be wanted: 0.5 degrees.
pub const HYSTERESIS: i32 = 500;

/// The readings that go into one measurement.
pub const NUM_MEASUREMENTS_TO_AVERAGE: usize = 10;

/// The time between two readings, in milliseconds.
pub const MEASUREMENT_DELAY_MS: u32 = 10;

/// The time between two measurements, in milliseconds.
pub const TEMPERATURE_MEASURE_INTERVAL_MS: u32 = 60_000;

/// The measurements from one decision about the compressor to the next.
pub const CHILLER_MIN_CYCLE_COUNT: u8 = 5;

/// The resistor that pulls the thermistor up, in ohms.
pub const THERMISTOR_PULLUP_VAL_OHMS: u32 = 10_000;

/// The reading of the converter at its reference voltage.
pub const ADC_FULL_SCALE: u32 = 4095;

/// The reference voltage of the converter, in millivolts.
pub const ADC_REFERENCE_MV: u32 = 3300;

/// What the chiller knows: setpoint and last temperature in thousandths of
/// a degree, and whether the compressor runs.
#[derive(Clone, Copy, Debug, PartialEq, Eq, Structural)]
pub struct ChillerState {
    pub setpoint_c: i32,
    pub current_c: i32,
    pub compressor_on: bool,
}

/// The chiller control: its state, and the measurements that still pass
/// before the compressor is decided on again.
#[derive(Clone, Copy, Debug, PartialEq, Eq, Structural)]
pub struct Chiller {
    pub state: ChillerState,
    pub due_in: u8,
}

/// The sum of some readings.
pub open spec fn sum(readings: Seq<u16>) -> int
    decreases readings.len(),
{
    if readings.len() == 0 {
        0
    } else {
        sum(readings.drop_last()) + readings.last()
    }
}

/// The voltage at the converter for a reading, in millivolts, rounded down.
pub open spec fn millivolts(reading: u16) -> int {
    reading * ADC_REFERENCE_MV / ADC_FULL_SCALE as int
}

/// The resistance of the thermistor for a voltage across it, in ohms,
/// rounded down; none where the voltage reaches the reference, for then
/// nothing drops across the pull-up.
pub open spec fn resistance(mv: u32) -> Option<int> {
    if mv >= ADC_REFERENCE_MV {
        None
    } else {
        Some(mv * THERMISTOR_PULLUP_VAL_OHMS / (ADC_REFERENCE_MV - mv))
    }
}

/// Whether the compressor is wanted: the temperature is more than the
/// hysteresis above the setpoint.
pub open spec fn demand(setpoint_c: i32, current_c: i32) -> bool {
    current_c > setpoint_c + HYSTERESIS
}

/// One measurement interval.
///
/// A measurement that failed changes nothing. A temperature is recorded; if
/// a decision is due, the compressor is set to the demand and the next
/// decision is due `CHILLER_MIN_CYCLE_COUNT` measurements later, and the
/// result is the new state of the compressor where it changed. Between
/// decisions the compressor stays as it is.
pub open spec fn chiller_step(c: Chiller, measurement: Option<i32>) -> (Chiller, Option<bool>) {
    match measurement {
        None => (c, None),
        Some(temp) => if c.due_in == 0 {
            let on = demand(c.state.setpoint_c, temp);
            (
                Chiller {
                    state: ChillerState { current_c: temp, compressor_on: on, ..c.state },
                    due_in: (CHILLER_MIN_CYCLE_COUNT - 1) as u8,
                },
                if on != c.state.compressor_on {
                    Some(on)
                } else {
                    None
                },
            )
        } else {
            (
                Chiller {
                    state: ChillerState { current_c: temp, ..c.state },
                    due_in: (c.due_in - 1) as u8,
                },
                None,
            )
        },
    }
}

/// The chiller after a run of good measurements.
pub open spec fn chiller_run(c: Chiller, temps: Seq<i32>) -> Chiller
    decreases temps.len(),
{
    if temps.len() == 0 {
        c
    } else {
        chiller_step(chiller_run(c, temps.drop_last()), Some(temps.last())).0
    }
}

/// The mean of ten readings, rounded down.
pub fn average(readings: &[u16; 10]) -> (mean: u16)
    ensures
        mean == sum(readings@) / 10,
{
    let mut total: u32 = 0;
    let mut i: usize = 0;
    while i < 10
        invariant
            i <= 10,
            total == sum(readings@.take(i as int)),
            total <= i * 65535,
        decreases 10 - i,
    {
        proof {
            assert(readings@.take(i + 1).drop_last() =~= readings@.take(i as int));
        }
        total = total + readings[i] as u32;
        i = i + 1;
    }
    proof {
        assert(readings@.take(10) =~= readings@);
    }
    (total / 10) as u16
}

/// The voltage at the converter for a reading, in millivolts.
pub fn adc_millivolts(reading: u16) -> (mv: u32)
    ensures
        mv == millivolts(reading),
{
    reading as u32 * ADC_REFERENCE_MV / ADC_FULL_SCALE
}

/// The resistance of the thermistor for a voltage across it, in ohms.
pub fn thermistor_ohms(mv: u32) -> (ohms: Option<u32>)
    ensures
        ohms is Some == resistance(mv) is Some,
        ohms matches Some(r) ==> r == resistance(mv)->0,
{
    if mv >= ADC_REFERENCE_MV {
        None
    } else {
        let r = mv * THERMISTOR_PULLUP_VAL_OHMS / (ADC_REFERENCE_MV - mv);
        Some(r)
    }
}

impl Chiller {
    /// The count of measurements to the next decision is within the cycle.
    pub open spec fn wf(self) -> bool {
        self.due_in < CHILLER_MIN_CYCLE_COUNT
    }

    /// A chiller at the default setpoint, with the compressor off and the
    /// first decision due at the first measurement.
    pub fn new() -> (c: Chiller)
        ensures
            c.wf(),
            c == (Chiller {
                state: ChillerState {
                    setpoint_c: DEFAULT_TEMPERATURE_SETPOINT,
                    current_c: 0,
                    compressor_on: false,
                },
                due_in: 0,
            }),
    {
        Chiller {
            state: ChillerState {
                setpoint_c: DEFAULT_TEMPERATURE_SETPOINT,
                current_c: 0,
                compressor_on: false,
            },
            due_in: 0,
        }
    }
}

/// One measurement interval of the chiller: takes the temperature, or none
/// where the measurement failed, and returns the state to switch the
/// compressor to, or none where it stays as it is.
pub fn chiller_task(chiller: &mut Chiller, measurement: Option<i32>) -> (switch: Option<bool>)
    ensures
        (*final(chiller), switch) == chiller_step(*old(chiller), measurement),
        old(chiller).wf() ==> final(chiller).wf(),
{
    match measurement {
        None => None,
        Some(temp) => {
            chiller.state.current_c = temp;
            if chiller.due_in == 0 {
                let on = temp as i64 > chiller.state.setpoint_c as i64 + HYSTERESIS as i64;
                let was = chiller.state.compressor_on;
                chiller.state.compressor_on = on;
                chiller.due_in = CHILLER_MIN_CYCLE_COUNT - 1;
                if on != was {
                    Some(on)
                } else {
                    None
                }
            } else {
                chiller.due_in = chiller.due_in - 1;
                None
            }
        },
    }
}

/// The compressor is spared: after a decision the next four measurements
/// switch nothing, whatever they read, and a measurement that failed never
/// switches anything.
pub proof fn lemma_no_switch_between_decisions(c: Chiller, measurement: Option<i32>)
    requires
        c.due_in > 0 || measurement is None,
    ensures
        chiller_step(c, measurement).1 is None,
        chiller_step(c, measurement).0.state.compressor_on == c.state.compressor_on,
{
}

/// A temperature within the band leaves a resting compressor at rest: no
/// measurement at or below the setpoint plus the hysteresis ever switches
/// it on.
pub proof fn lemma_within_band_stays_off(c: Chiller, temp: i32)
    requires
        !c.state.compressor_on,
        temp <= c.state.setpoint_c + HYSTERESIS,
    ensures
        chiller_step(c, Some(temp)).1 is None,
        !chiller_step(c, Some(temp)).0.state.compressor_on,
{
}

/// At a decision the compressor follows the demand: it is switched on
/// above the band and off at or below it, and the switch is reported only
/// where the compressor changes.
pub proof fn lemma_decision_follows_demand(c: Chiller, temp: i32)
    requires
        c.due_in == 0,
    ensures
        chiller_step(c, Some(temp)).0.state.compressor_on == (temp > c.state.setpoint_c
            + HYSTERESIS),
        chiller_step(c, Some(temp)).1 == (if (temp > c.state.setpoint_c + HYSTERESIS)
            != c.state.compressor_on {
            Some(temp > c.state.setpoint_c + HYSTERESIS)
        } else {
            None
        }),
{
}

/// A run of measurements keeps the setpoint and the cycle, and holds a
/// decision within any `CHILLER_MIN_CYCLE_COUNT` of them.
proof fn lemma_run_shape(c: Chiller, temps: Seq<i32>, wanted: bool)
    requires
        c.wf(),
        forall|i: int| 0 <= i < temps.len() ==> demand(c.state.setpoint_c, #[trigger] temps[i]) == wanted,
    ensures
        chiller_run(c, temps).wf(),
        chiller_run(c, temps).state.setpoint_c == c.state.setpoint_c,
        temps.len() > c.due_in ==> chiller_run(c, temps).state.compressor_on == wanted,
        temps.len() <= c.due_in ==> chiller_run(c, temps).due_in == c.due_in - temps.len()
            && chiller_run(c, temps).state.compressor_on == c.state.compressor_on,
    decreases temps.len(),
{
    if temps.len() > 0 {
        lemma_run_shape(c, temps.drop_last(), wanted);
    }
}

/// A demand that is sustained over `CHILLER_MIN_CYCLE_COUNT` measurements
/// is followed: after five measurements above the band the compressor
/// runs, and after five at or below it the compressor rests, wherever in
/// its cycle the chiller stood.
pub proof fn lemma_sustained_demand_is_followed(c: Chiller, temps: Seq<i32>, wanted: bool)
    requires
        c.wf(),
        temps.len() >= CHILLER_MIN_CYCLE_COUNT,
        forall|i: int| 0 <= i < temps.len() ==> demand(c.state.setpoint_c, #[trigger] temps[i]) == wanted,
    ensures
        chiller_run(c, temps).state.compressor_on == wanted,
{
    lemma_run_shape(c, temps, wanted);
}

} // verus!
