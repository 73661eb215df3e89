//! Environmental control engine: maps one sensor reading plus the current
//! preferences to actuator commands, once per poll cycle.

use vstd::prelude::*;

use crate::preferences::{spec_is_watering_time, Preferences};

verus! {

/// Commanded state of the roof vent actuator.
#[derive(Clone, Copy, Debug, PartialEq, Eq, Structural)]
pub enum VentState {
    Open,
    Closed,
}

/// Commanded state of the sprinkler actuator.
#[derive(Clone, Copy, Debug, PartialEq, Eq, Structural)]
pub enum SprinklerState {
    On,
    Off,
}

/// One sensor sample, produced per poll cycle and consumed immediately:
/// temperature in degrees Fahrenheit, relative humidity in percent, and
/// atmospheric pressure in hectopascals (display only).
#[derive(Clone, Copy, Debug, PartialEq, Eq, Structural)]
pub struct SensorReading {
    pub temperature_f: u8,
    pub humidity_pct: u8,
    pub pressure_hpa: u16,
}

/// The actuator commands produced by one control evaluation.  The buzzer
/// is controlled exclusively by the fire interlock and the fatal sensor
/// alarm; the control engine never touches it.
#[derive(Clone, Copy, Debug, PartialEq, Eq, Structural)]
pub struct ActuatorCommand {
    pub vent: VentState,
    pub sprinklers: SprinklerState,
}

/// Whether the temperature reading falls outside the acceptable range.
pub open spec fn spec_vent_open(reading: SensorReading, prefs: Preferences) -> bool {
    reading.temperature_f < prefs.temperature.low || reading.temperature_f > prefs.temperature.high
}

/// Whether the humidity reading falls outside the acceptable range or the
/// watering window covers the current time.
pub open spec fn spec_sprinklers_on(reading: SensorReading, prefs: Preferences) -> bool {
    ||| reading.humidity_pct < prefs.humidity.low
    ||| reading.humidity_pct > prefs.humidity.high
    ||| spec_is_watering_time(prefs)
}

/// Evaluates the actuators for one poll cycle: the vent opens exactly
/// when the temperature is outside its acceptable range, and the
/// sprinklers run exactly when the humidity is outside its acceptable
/// range or the current time lies inside the watering window.
pub fn evaluate_controls(reading: &SensorReading, prefs: &Preferences) -> (cmd: ActuatorCommand)
    ensures
        cmd.vent == VentState::Open <==> spec_vent_open(*reading, *prefs),
        cmd.sprinklers == SprinklerState::On <==> spec_sprinklers_on(*reading, *prefs),
{
    let vent = if reading.temperature_f < prefs.temperature.low || reading.temperature_f
        > prefs.temperature.high {
        VentState::Open
    } else {
        VentState::Closed
    };
    let sprinklers = if reading.humidity_pct < prefs.humidity.low || reading.humidity_pct
        > prefs.humidity.high || prefs.is_watering_time() {
        SprinklerState::On
    } else {
        SprinklerState::Off
    };
    ActuatorCommand { vent, sprinklers }
}

} // verus!
