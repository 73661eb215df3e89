use gem_rs::calendar::Calendar;
use gem_rs::edit::{
    cursor_for_field, edit_caption, edit_tick, session_for_screen, ButtonLevels, CursorPosition,
    EditGroup, EditSession, EditStep,
};
use gem_rs::preferences::{Preferences, ThresholdRange, WateringWindow};
use gem_rs::schedule::Screen;

const UP: ButtonLevels = ButtonLevels { up: true, down: false, select: false };
const DOWN: ButtonLevels = ButtonLevels { up: false, down: true, select: false };
const SELECT: ButtonLevels = ButtonLevels { up: false, down: false, select: true };
const BOTH: ButtonLevels = ButtonLevels { up: true, down: true, select: false };
const IDLE: ButtonLevels = ButtonLevels { up: false, down: false, select: false };

fn session(group: EditGroup) -> EditSession {
    EditSession { group, field: 0, advance_clock: false }
}

#[test]
fn temperature_edited_out_of_order_corrects_on_commit() {
    let mut p = Preferences::default();
    let mut s = session(EditGroup::Temperature);
    // Raise the low bound from 60 to 80.
    for _ in 0..20 {
        assert_eq!(edit_tick(&mut p, &mut s, UP), EditStep::Continue { refresh: true });
    }
    assert_eq!(edit_tick(&mut p, &mut s, SELECT), EditStep::Continue { refresh: true });
    // Lower the high bound from 80 to 60, leaving (80, 60).
    for _ in 0..20 {
        assert_eq!(edit_tick(&mut p, &mut s, DOWN), EditStep::Continue { refresh: true });
    }
    assert_eq!(p.temperature, ThresholdRange { low: 80, high: 60 });
    // Committing swaps the out-of-order pair.
    assert_eq!(edit_tick(&mut p, &mut s, SELECT), EditStep::Committed);
    assert_eq!(p.temperature, ThresholdRange { low: 60, high: 80 });
}

#[test]
fn humidity_commit_keeps_ordered_pair() {
    let mut p = Preferences::default();
    let mut s = session(EditGroup::Humidity);
    assert_eq!(edit_tick(&mut p, &mut s, DOWN), EditStep::Continue { refresh: true });
    assert_eq!(edit_tick(&mut p, &mut s, SELECT), EditStep::Continue { refresh: true });
    assert_eq!(edit_tick(&mut p, &mut s, UP), EditStep::Continue { refresh: true });
    assert_eq!(edit_tick(&mut p, &mut s, SELECT), EditStep::Committed);
    assert_eq!(p.humidity, ThresholdRange { low: 59, high: 71 });
}

#[test]
fn humidity_clamps_at_its_limits() {
    let mut p = Preferences::default();
    p.humidity = ThresholdRange { low: 0, high: 100 };
    let mut s = session(EditGroup::Humidity);
    edit_tick(&mut p, &mut s, DOWN);
    assert_eq!(p.humidity.low, 0);
    edit_tick(&mut p, &mut s, SELECT);
    edit_tick(&mut p, &mut s, UP);
    assert_eq!(p.humidity.high, 100);
}

#[test]
fn temperature_clamps_at_its_limits() {
    let mut p = Preferences::default();
    p.temperature = ThresholdRange { low: 0, high: 120 };
    let mut s = session(EditGroup::Temperature);
    edit_tick(&mut p, &mut s, DOWN);
    assert_eq!(p.temperature.low, 0);
    edit_tick(&mut p, &mut s, SELECT);
    edit_tick(&mut p, &mut s, UP);
    assert_eq!(p.temperature.high, 120);
}

#[test]
fn watering_both_buttons_clears_window() {
    let mut p = Preferences::default();
    p.watering = Some(WateringWindow { start_hour: 6, start_minute: 0, end_hour: 7, end_minute: 0 });
    let mut s = session(EditGroup::Watering);
    assert_eq!(edit_tick(&mut p, &mut s, BOTH), EditStep::Committed);
    assert_eq!(p.watering, None);
}

#[test]
fn watering_step_materializes_default_window() {
    let mut p = Preferences::default();
    assert_eq!(p.watering, None);
    let mut s = session(EditGroup::Watering);
    edit_tick(&mut p, &mut s, UP);
    assert_eq!(
        p.watering,
        Some(WateringWindow { start_hour: 0, start_minute: 0, end_hour: 1, end_minute: 0 })
    );
}

#[test]
fn watering_fields_step_in_display_order() {
    let mut p = Preferences::default();
    p.watering = Some(WateringWindow { start_hour: 6, start_minute: 0, end_hour: 7, end_minute: 0 });
    let mut s = session(EditGroup::Watering);
    edit_tick(&mut p, &mut s, UP); // start hour
    edit_tick(&mut p, &mut s, SELECT);
    edit_tick(&mut p, &mut s, UP); // start minute
    edit_tick(&mut p, &mut s, SELECT);
    edit_tick(&mut p, &mut s, UP); // end hour
    edit_tick(&mut p, &mut s, SELECT);
    edit_tick(&mut p, &mut s, UP); // end minute
    let step = edit_tick(&mut p, &mut s, SELECT);
    assert_eq!(step, EditStep::Committed);
    assert_eq!(
        p.watering,
        Some(WateringWindow { start_hour: 7, start_minute: 1, end_hour: 8, end_minute: 1 })
    );
}

#[test]
fn watering_commit_swaps_window_spanning_midnight() {
    let mut p = Preferences::default();
    p.watering =
        Some(WateringWindow { start_hour: 23, start_minute: 0, end_hour: 1, end_minute: 30 });
    let mut s = EditSession { group: EditGroup::Watering, field: 3, advance_clock: false };
    assert_eq!(edit_tick(&mut p, &mut s, SELECT), EditStep::Committed);
    assert_eq!(
        p.watering,
        Some(WateringWindow { start_hour: 1, start_minute: 30, end_hour: 23, end_minute: 0 })
    );
}

#[test]
fn date_fields_wrap_cyclically() {
    let mut p = Preferences::default();
    p.calendar = Calendar { second: 0, minute: 59, hour: 23, day: 31, month: 12, year: 2000 };
    let mut s = session(EditGroup::DateTime);
    edit_tick(&mut p, &mut s, UP); // minute wraps
    assert_eq!(p.calendar.minute, 0);
    edit_tick(&mut p, &mut s, SELECT);
    edit_tick(&mut p, &mut s, UP); // hour wraps
    assert_eq!(p.calendar.hour, 0);
    edit_tick(&mut p, &mut s, SELECT);
    edit_tick(&mut p, &mut s, UP); // day wraps within December
    assert_eq!(p.calendar.day, 1);
    edit_tick(&mut p, &mut s, SELECT);
    edit_tick(&mut p, &mut s, UP); // month wraps to January
    assert_eq!(p.calendar.month, 1);
    edit_tick(&mut p, &mut s, SELECT);
    edit_tick(&mut p, &mut s, UP); // year increments
    assert_eq!(p.calendar.year, 2001);
    assert_eq!(edit_tick(&mut p, &mut s, SELECT), EditStep::Committed);
}

#[test]
fn month_step_rebounds_the_day() {
    let mut p = Preferences::default();
    p.calendar = Calendar { second: 0, minute: 0, hour: 0, day: 31, month: 1, year: 2001 };
    let mut s = EditSession { group: EditGroup::DateTime, field: 3, advance_clock: false };
    edit_tick(&mut p, &mut s, UP); // January -> February
    assert_eq!(p.calendar.month, 2);
    assert_eq!(p.calendar.day, 28);
}

#[test]
fn year_step_rebounds_leap_day() {
    let mut p = Preferences::default();
    p.calendar = Calendar { second: 0, minute: 0, hour: 0, day: 29, month: 2, year: 2000 };
    let mut s = EditSession { group: EditGroup::DateTime, field: 4, advance_clock: false };
    edit_tick(&mut p, &mut s, UP); // 2000 -> 2001, no Feb 29
    assert_eq!(p.calendar.year, 2001);
    assert_eq!(p.calendar.day, 28);
}

#[test]
fn clock_advances_on_alternate_iterations() {
    let mut p = Preferences::default();
    let mut s = session(EditGroup::Temperature);
    assert_eq!(edit_tick(&mut p, &mut s, IDLE), EditStep::Continue { refresh: false });
    assert_eq!(p.calendar.second, 0); // first wait does not tick
    edit_tick(&mut p, &mut s, IDLE);
    assert_eq!(p.calendar.second, 1); // second wait does
    edit_tick(&mut p, &mut s, IDLE);
    assert_eq!(p.calendar.second, 1);
    edit_tick(&mut p, &mut s, IDLE);
    assert_eq!(p.calendar.second, 2);
}

#[test]
fn sessions_open_per_screen() {
    assert_eq!(
        session_for_screen(Screen::Temperature),
        Some(session(EditGroup::Temperature))
    );
    assert_eq!(session_for_screen(Screen::Humidity), Some(session(EditGroup::Humidity)));
    assert_eq!(session_for_screen(Screen::Pressure), None);
    assert_eq!(session_for_screen(Screen::DateTime), Some(session(EditGroup::DateTime)));
    assert_eq!(session_for_screen(Screen::Watering), Some(session(EditGroup::Watering)));
}

#[test]
fn captions_render_current_values() {
    let p = Preferences::default();
    assert_eq!(edit_caption(&p, EditGroup::Temperature, 0), "60 - 80");
    assert_eq!(edit_caption(&p, EditGroup::Humidity, 1), "60% - 70%");
    assert_eq!(edit_caption(&p, EditGroup::DateTime, 0), "Minute: 0");
    assert_eq!(edit_caption(&p, EditGroup::DateTime, 1), "Hour: 0");
    assert_eq!(edit_caption(&p, EditGroup::DateTime, 2), "Day: 1");
    assert_eq!(edit_caption(&p, EditGroup::DateTime, 3), "Month: 1");
    assert_eq!(edit_caption(&p, EditGroup::DateTime, 4), "Year: 2000");
    assert_eq!(edit_caption(&p, EditGroup::Watering, 0), "None");
    let mut q = p;
    q.watering = Some(WateringWindow { start_hour: 22, start_minute: 0, end_hour: 23, end_minute: 30 });
    assert_eq!(edit_caption(&q, EditGroup::Watering, 2), "22:00 - 23:30");
}

#[test]
fn cursor_marks_active_field() {
    assert_eq!(cursor_for_field(EditGroup::Temperature, 0), CursorPosition::Left);
    assert_eq!(cursor_for_field(EditGroup::Temperature, 1), CursorPosition::Right);
    assert_eq!(cursor_for_field(EditGroup::Humidity, 0), CursorPosition::Left);
    assert_eq!(cursor_for_field(EditGroup::DateTime, 2), CursorPosition::Center);
    assert_eq!(cursor_for_field(EditGroup::Watering, 1), CursorPosition::Left);
    assert_eq!(cursor_for_field(EditGroup::Watering, 2), CursorPosition::Right);
}
