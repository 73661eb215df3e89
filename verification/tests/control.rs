use gem_rs::control::{evaluate_controls, ActuatorCommand, SensorReading, SprinklerState, VentState};
use gem_rs::interlock::{alarm_iteration, clear, engage, InterlockState, SafetyOutputs};
use gem_rs::preferences::{Preferences, WateringWindow};

fn reading(temperature_f: u8, humidity_pct: u8) -> SensorReading {
    SensorReading { temperature_f, humidity_pct, pressure_hpa: 1013 }
}

#[test]
fn vent_opens_outside_temperature_range() {
    let p = Preferences::default(); // 60-80 F
    assert_eq!(evaluate_controls(&reading(59, 65), &p).vent, VentState::Open);
    assert_eq!(evaluate_controls(&reading(81, 65), &p).vent, VentState::Open);
}

#[test]
fn vent_stays_closed_inside_temperature_range() {
    let p = Preferences::default();
    assert_eq!(evaluate_controls(&reading(60, 65), &p).vent, VentState::Closed);
    assert_eq!(evaluate_controls(&reading(70, 65), &p).vent, VentState::Closed);
    assert_eq!(evaluate_controls(&reading(80, 65), &p).vent, VentState::Closed);
}

#[test]
fn sprinklers_run_outside_humidity_range() {
    let p = Preferences::default(); // 60-70 %
    assert_eq!(evaluate_controls(&reading(70, 59), &p).sprinklers, SprinklerState::On);
    assert_eq!(evaluate_controls(&reading(70, 71), &p).sprinklers, SprinklerState::On);
}

#[test]
fn sprinklers_idle_inside_humidity_range() {
    let p = Preferences::default();
    assert_eq!(evaluate_controls(&reading(70, 60), &p).sprinklers, SprinklerState::Off);
    assert_eq!(evaluate_controls(&reading(70, 65), &p).sprinklers, SprinklerState::Off);
    assert_eq!(evaluate_controls(&reading(70, 70), &p).sprinklers, SprinklerState::Off);
}

#[test]
fn sprinklers_run_during_watering_window_despite_good_humidity() {
    let mut p = Preferences::default();
    p.watering =
        Some(WateringWindow { start_hour: 0, start_minute: 0, end_hour: 1, end_minute: 0 });
    // Calendar defaults to midnight, inside the window.
    let cmd = evaluate_controls(&reading(70, 65), &p);
    assert_eq!(cmd, ActuatorCommand { vent: VentState::Closed, sprinklers: SprinklerState::On });
}

#[test]
fn alarm_forces_all_outputs() {
    let (state, outputs) = engage(VentState::Open);
    assert_eq!(state, InterlockState::Alarm { prior_vent: VentState::Open });
    assert_eq!(
        outputs,
        SafetyOutputs { vent: VentState::Closed, sprinklers: SprinklerState::On, buzzer: true }
    );
}

#[test]
fn alarm_iterations_keep_tracking_time() {
    let mut p = Preferences::default();
    let (state, _) = engage(VentState::Closed);
    for _ in 0..5 {
        let outputs = alarm_iteration(&mut p, &state);
        assert_eq!(outputs.vent, VentState::Closed);
        assert_eq!(outputs.sprinklers, SprinklerState::On);
        assert!(outputs.buzzer);
    }
    assert_eq!(p.calendar.second, 5);
}

#[test]
fn open_vent_restored_after_smoke_clears() {
    let mut p = Preferences::default();
    let (state, _) = engage(VentState::Open);
    // Whatever happens during the alarm, only the calendar moves.
    for _ in 0..3 {
        alarm_iteration(&mut p, &state);
    }
    let (state, outputs) = clear(state);
    assert_eq!(state, InterlockState::Normal);
    assert_eq!(
        outputs,
        SafetyOutputs { vent: VentState::Open, sprinklers: SprinklerState::Off, buzzer: false }
    );
}

#[test]
fn closed_vent_restored_after_smoke_clears() {
    let (state, _) = engage(VentState::Closed);
    let (state, outputs) = clear(state);
    assert_eq!(state, InterlockState::Normal);
    assert_eq!(
        outputs,
        SafetyOutputs { vent: VentState::Closed, sprinklers: SprinklerState::Off, buzzer: false }
    );
}
