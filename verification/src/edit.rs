//! Edit session state machine: drives the operator through field-by-field
//! editing of one preference group at a fixed cadence.
//!
//! The session itself is pure decision logic: each cadence iteration the
//! surrounding loop renders, waits, samples the button levels and hands
//! them to [`edit_tick`], which applies the field change and says whether
//! to re-render or that the group was committed.

use vstd::prelude::*;

use crate::calendar::{spec_days_in_month, spec_tick, Calendar};
use crate::preferences::{
    watering_text, Preferences, ThresholdRange, WateringWindow, HUMIDITY_MAX_PCT,
    TEMPERATURE_MAX_F,
};
use crate::schedule::Screen;
use crate::stepper::{inclusive_iterator, spec_step};
use crate::text::{decimal, push_decimal};

verus! {

/// Which preference group an edit session works through.
#[derive(Clone, Copy, Debug, PartialEq, Eq, Structural)]
pub enum EditGroup {
    Temperature,
    Humidity,
    DateTime,
    Watering,
}

/// The sampled levels of the three buttons, taken once per cadence
/// iteration with no debounce or cooldown: a held button re-applies its
/// step every iteration.
#[derive(Clone, Copy, Debug, PartialEq, Eq, Structural)]
pub struct ButtonLevels {
    pub up: bool,
    pub down: bool,
    pub select: bool,
}

/// A running edit session: the group being edited, the index of the
/// active field, and whether the next cadence iteration advances the
/// calendar (iterations alternate, so elapsed real time stays roughly
/// tracked during lengthy edits).
#[derive(Clone, Copy, Debug, PartialEq, Eq, Structural)]
pub struct EditSession {
    pub group: EditGroup,
    pub field: u8,
    pub advance_clock: bool,
}

/// What one cadence iteration decided: keep editing (re-rendering only
/// after a change), or the whole group was committed.
#[derive(Clone, Copy, Debug, PartialEq, Eq, Structural)]
pub enum EditStep {
    Continue { refresh: bool },
    Committed,
}

/// How many fields the session steps through for a group: the two bounds
/// of a threshold pair, the five date-time components, or the four
/// watering-window components.
pub open spec fn field_count(group: EditGroup) -> u8 {
    match group {
        EditGroup::Temperature => 2,
        EditGroup::Humidity => 2,
        EditGroup::DateTime => 5,
        EditGroup::Watering => 4,
    }
}

impl EditSession {
    /// The active field index stays inside the group's field table.
    pub open spec fn wf(self) -> bool {
        self.field < field_count(self.group)
    }
}

/// One clamped step: up stops at `max`, down stops at zero (no wrap).
pub open spec fn spec_clamp_step(v: u8, max: u8, up: bool) -> u8 {
    if up {
        if v < max {
            (v + 1) as u8
        } else {
            v
        }
    } else {
        if v > 0 {
            (v - 1) as u8
        } else {
            v
        }
    }
}

fn clamp_step(v: u8, max: u8, up: bool) -> (stepped: u8)
    ensures
        stepped == spec_clamp_step(v, max, up),
{
    if up {
        if v < max {
            v + 1
        } else {
            v
        }
    } else {
        if v > 0 {
            v - 1
        } else {
            v
        }
    }
}

/// The day re-bounded after a month or year edit changed the month's
/// length: a day past the new month's end is pulled back to the last day,
/// keeping the calendar invariant.
pub open spec fn spec_clamped_day(day: u8, month: u8, year: u16) -> u8 {
    if day <= spec_days_in_month(month, year) {
        day
    } else {
        spec_days_in_month(month, year)
    }
}

/// The preferences after one UP (or DOWN) press on the active field.
///
/// Threshold bounds step clamped (temperature within
/// `[0, TEMPERATURE_MAX_F]`, humidity within `[0, HUMIDITY_MAX_PCT]`);
/// date and watering fields step cyclically through their unit's range;
/// the year steps clamped at its type bounds.  A step on an absent
/// watering window first materializes the default window instead of
/// editing a field.
pub open spec fn spec_step_field(p: Preferences, group: EditGroup, field: u8, up: bool) -> Preferences {
    match group {
        EditGroup::Temperature => {
            if field == 0 {
                Preferences {
                    temperature: ThresholdRange {
                        low: spec_clamp_step(p.temperature.low, TEMPERATURE_MAX_F, up),
                        ..p.temperature
                    },
                    ..p
                }
            } else {
                Preferences {
                    temperature: ThresholdRange {
                        high: spec_clamp_step(p.temperature.high, TEMPERATURE_MAX_F, up),
                        ..p.temperature
                    },
                    ..p
                }
            }
        },
        EditGroup::Humidity => {
            if field == 0 {
                Preferences {
                    humidity: ThresholdRange {
                        low: spec_clamp_step(p.humidity.low, HUMIDITY_MAX_PCT, up),
                        ..p.humidity
                    },
                    ..p
                }
            } else {
                Preferences {
                    humidity: ThresholdRange {
                        high: spec_clamp_step(p.humidity.high, HUMIDITY_MAX_PCT, up),
                        ..p.humidity
                    },
                    ..p
                }
            }
        },
        EditGroup::DateTime => {
            let c = p.calendar;
            if field == 0 {
                Preferences { calendar: Calendar { minute: spec_step(c.minute, 0, 59, up), ..c }, ..p }
            } else if field == 1 {
                Preferences { calendar: Calendar { hour: spec_step(c.hour, 0, 23, up), ..c }, ..p }
            } else if field == 2 {
                Preferences {
                    calendar: Calendar {
                        day: spec_step(c.day, 1, spec_days_in_month(c.month, c.year), up),
                        ..c
                    },
                    ..p
                }
            } else if field == 3 {
                let month = spec_step(c.month, 1, 12, up);
                Preferences {
                    calendar: Calendar {
                        month,
                        day: spec_clamped_day(c.day, month, c.year),
                        ..c
                    },
                    ..p
                }
            } else {
                let year = if up {
                    if c.year < u16::MAX {
                        (c.year + 1) as u16
                    } else {
                        c.year
                    }
                } else {
                    if c.year > 0 {
                        (c.year - 1) as u16
                    } else {
                        c.year
                    }
                };
                Preferences {
                    calendar: Calendar { year, day: spec_clamped_day(c.day, c.month, year), ..c },
                    ..p
                }
            }
        },
        EditGroup::Watering => {
            match p.watering {
                None => Preferences {
                    watering: Some(
                        WateringWindow { start_hour: 0, start_minute: 0, end_hour: 1, end_minute: 0 },
                    ),
                    ..p
                },
                Some(w) => {
                    let stepped = if field == 0 {
                        WateringWindow { start_hour: spec_step(w.start_hour, 0, 23, up), ..w }
                    } else if field == 1 {
                        WateringWindow { start_minute: spec_step(w.start_minute, 0, 59, up), ..w }
                    } else if field == 2 {
                        WateringWindow { end_hour: spec_step(w.end_hour, 0, 23, up), ..w }
                    } else {
                        WateringWindow { end_minute: spec_step(w.end_minute, 0, 59, up), ..w }
                    };
                    Preferences { watering: Some(stepped), ..p }
                },
            }
        },
    }
}

/// The preferences after a group commits: the edited group's ordering
/// invariant is restored (out-of-order bounds swapped); nothing else
/// changes.  Date-time fields are each kept in range as they are edited,
/// so that group commits as it stands.
pub open spec fn spec_commit(p: Preferences, group: EditGroup) -> Preferences {
    match group {
        EditGroup::Temperature => Preferences { temperature: p.temperature.spec_normalized(), ..p },
        EditGroup::Humidity => Preferences { humidity: p.humidity.spec_normalized(), ..p },
        EditGroup::DateTime => p,
        EditGroup::Watering => match p.watering {
            Some(w) => Preferences { watering: Some(w.spec_normalized()), ..p },
            None => p,
        },
    }
}

/// The edited group's ordering invariant, as commit leaves it.
pub open spec fn group_committed_ok(p: Preferences, group: EditGroup) -> bool {
    match group {
        EditGroup::Temperature => p.temperature.ordered(),
        EditGroup::Humidity => p.humidity.ordered(),
        EditGroup::DateTime => true,
        EditGroup::Watering => match p.watering {
            Some(w) => w.ordered(),
            None => true,
        },
    }
}

/// The preferences after the cadence wait, which advances the calendar on
/// every other iteration.
pub open spec fn spec_clocked(p: Preferences, advance: bool) -> Preferences {
    if advance {
        Preferences { calendar: spec_tick(p.calendar), ..p }
    } else {
        p
    }
}

/// The complete transition of one cadence iteration; see [`edit_tick`].
pub open spec fn spec_edit_tick(p: Preferences, s: EditSession, b: ButtonLevels) -> (
    Preferences,
    EditSession,
    EditStep,
) {
    let clocked = spec_clocked(p, s.advance_clock);
    let toggled = EditSession { advance_clock: !s.advance_clock, ..s };
    if s.group == EditGroup::Watering && b.up && b.down {
        (
            Preferences { watering: None, ..clocked },
            toggled,
            EditStep::Committed,
        )
    } else if b.up {
        (spec_step_field(clocked, s.group, s.field, true), toggled, EditStep::Continue { refresh: true })
    } else if b.down {
        (
            spec_step_field(clocked, s.group, s.field, false),
            toggled,
            EditStep::Continue { refresh: true },
        )
    } else if b.select {
        if s.field + 1 < field_count(s.group) {
            (
                clocked,
                EditSession { field: (s.field + 1) as u8, ..toggled },
                EditStep::Continue { refresh: true },
            )
        } else {
            (spec_commit(clocked, s.group), toggled, EditStep::Committed)
        }
    } else {
        (clocked, toggled, EditStep::Continue { refresh: false })
    }
}

/// Applies one UP or DOWN press to the session's active field.
fn step_field(prefs: &mut Preferences, group: EditGroup, field: u8, up: bool)
    requires
        old(prefs).bounds_ok(),
        field < field_count(group),
    ensures
        *final(prefs) == spec_step_field(*old(prefs), group, field, up),
        final(prefs).bounds_ok(),
{
    match group {
        EditGroup::Temperature => {
            if field == 0 {
                prefs.temperature.low = clamp_step(prefs.temperature.low, TEMPERATURE_MAX_F, up);
            } else {
                prefs.temperature.high = clamp_step(prefs.temperature.high, TEMPERATURE_MAX_F, up);
            }
        },
        EditGroup::Humidity => {
            if field == 0 {
                prefs.humidity.low = clamp_step(prefs.humidity.low, HUMIDITY_MAX_PCT, up);
            } else {
                prefs.humidity.high = clamp_step(prefs.humidity.high, HUMIDITY_MAX_PCT, up);
            }
        },
        EditGroup::DateTime => {
            let mut c: Calendar = prefs.calendar;
            if field == 0 {
                c.minute = inclusive_iterator(c.minute, 0, 59, up);
            } else if field == 1 {
                c.hour = inclusive_iterator(c.hour, 0, 23, up);
            } else if field == 2 {
                c.day = c.step_day(up);
            } else if field == 3 {
                c.month = inclusive_iterator(c.month, 1, 12, up);
                let days: u8 = c.days_in_month();
                if c.day > days {
                    c.day = days;
                }
            } else {
                c.year = if up {
                    if c.year < u16::MAX {
                        c.year + 1
                    } else {
                        c.year
                    }
                } else {
                    if c.year > 0 {
                        c.year - 1
                    } else {
                        c.year
                    }
                };
                let days: u8 = c.days_in_month();
                if c.day > days {
                    c.day = days;
                }
            }
            prefs.calendar = c;
        },
        EditGroup::Watering => {
            match prefs.watering {
                None => {
                    prefs.set_default_watering_time();
                },
                Some(w) => {
                    let mut w: WateringWindow = w;
                    if field == 0 {
                        w.start_hour = inclusive_iterator(w.start_hour, 0, 23, up);
                    } else if field == 1 {
                        w.start_minute = inclusive_iterator(w.start_minute, 0, 59, up);
                    } else if field == 2 {
                        w.end_hour = inclusive_iterator(w.end_hour, 0, 23, up);
                    } else {
                        w.end_minute = inclusive_iterator(w.end_minute, 0, 59, up);
                    }
                    prefs.watering = Some(w);
                },
            }
        },
    }
}

/// Applies the edited group's ordering invariant at commit.
fn commit_group(prefs: &mut Preferences, group: EditGroup)
    requires
        old(prefs).bounds_ok(),
    ensures
        *final(prefs) == spec_commit(*old(prefs), group),
        final(prefs).bounds_ok(),
        group_committed_ok(*final(prefs), group),
{
    match group {
        EditGroup::Temperature => {
            prefs.temperature = prefs.temperature.normalized();
        },
        EditGroup::Humidity => {
            prefs.humidity = prefs.humidity.normalized();
        },
        EditGroup::DateTime => {},
        EditGroup::Watering => {
            match prefs.watering {
                Some(w) => {
                    prefs.watering = Some(w.normalized());
                },
                None => {},
            }
        },
    }
}

/// One cadence iteration of an edit session.
///
/// First the cadence wait ends: on every other iteration the calendar
/// advances one second.  Then the button levels decide, in this priority:
/// in the watering group, UP and DOWN held together clear the window to
/// absent and commit at once; UP or DOWN steps the active field and asks
/// for a re-render; SELECT commits the active field, moving to the next
/// field or — after the last — committing the group with its ordering
/// invariant restored; no button held leaves everything as the wait left
/// it.
pub fn edit_tick(prefs: &mut Preferences, session: &mut EditSession, buttons: ButtonLevels) -> (step:
    EditStep)
    requires
        old(prefs).bounds_ok(),
        old(session).wf(),
    ensures
        *final(prefs) == spec_edit_tick(*old(prefs), *old(session), buttons).0,
        *final(session) == spec_edit_tick(*old(prefs), *old(session), buttons).1,
        step == spec_edit_tick(*old(prefs), *old(session), buttons).2,
        final(prefs).bounds_ok(),
        final(session).wf(),
        final(session).group == old(session).group,
        step == EditStep::Committed ==> group_committed_ok(*final(prefs), old(session).group),
{
    if session.advance_clock {
        prefs.tick_time();
    }
    session.advance_clock = !session.advance_clock;

    if matches!(session.group, EditGroup::Watering) && buttons.up && buttons.down {
        prefs.watering = None;
        return EditStep::Committed;
    }
    if buttons.up {
        step_field(prefs, session.group, session.field, true);
        return EditStep::Continue { refresh: true };
    }
    if buttons.down {
        step_field(prefs, session.group, session.field, false);
        return EditStep::Continue { refresh: true };
    }
    if buttons.select {
        if session.field + 1 < field_count_exec(session.group) {
            session.field = session.field + 1;
            return EditStep::Continue { refresh: true };
        }
        commit_group(prefs, session.group);
        return EditStep::Committed;
    }
    EditStep::Continue { refresh: false }
}

/// The number of fields of a group; see [`field_count`].
fn field_count_exec(group: EditGroup) -> (count: u8)
    ensures
        count == field_count(group),
{
    match group {
        EditGroup::Temperature => 2,
        EditGroup::Humidity => 2,
        EditGroup::DateTime => 5,
        EditGroup::Watering => 4,
    }
}

/// The edit session a SELECT press opens on a screen: each preferences
/// view edits its own group, starting at the first field with the clock
/// advance off; the pressure view has no configuration.
pub open spec fn spec_session_for_screen(screen: Screen) -> Option<EditSession> {
    match screen {
        Screen::Temperature => Some(
            EditSession { group: EditGroup::Temperature, field: 0, advance_clock: false },
        ),
        Screen::Humidity => Some(
            EditSession { group: EditGroup::Humidity, field: 0, advance_clock: false },
        ),
        Screen::Pressure => None,
        Screen::DateTime => Some(
            EditSession { group: EditGroup::DateTime, field: 0, advance_clock: false },
        ),
        Screen::Watering => Some(
            EditSession { group: EditGroup::Watering, field: 0, advance_clock: false },
        ),
    }
}

/// Opens the edit session for the given screen, or `None` on the
/// pressure screen, which has no configuration.
pub fn session_for_screen(screen: Screen) -> (session: Option<EditSession>)
    ensures
        session == spec_session_for_screen(screen),
        session matches Some(s) ==> s.wf(),
{
    match screen {
        Screen::Temperature => Some(
            EditSession { group: EditGroup::Temperature, field: 0, advance_clock: false },
        ),
        Screen::Humidity => Some(
            EditSession { group: EditGroup::Humidity, field: 0, advance_clock: false },
        ),
        Screen::Pressure => None,
        Screen::DateTime => Some(
            EditSession { group: EditGroup::DateTime, field: 0, advance_clock: false },
        ),
        Screen::Watering => Some(
            EditSession { group: EditGroup::Watering, field: 0, advance_clock: false },
        ),
    }
}

/// Where the blinking cursor sits on the display's second line while a
/// field is edited: left for the first component of a pair, right for the
/// second, centered for the date-time fields.
#[derive(Clone, Copy, Debug, PartialEq, Eq, Structural)]
pub enum CursorPosition {
    Left,
    Right,
    Center,
}

/// The cursor position for the session's active field.
pub open spec fn spec_cursor_for_field(group: EditGroup, field: u8) -> CursorPosition {
    match group {
        EditGroup::Temperature => if field == 0 {
            CursorPosition::Left
        } else {
            CursorPosition::Right
        },
        EditGroup::Humidity => if field == 0 {
            CursorPosition::Left
        } else {
            CursorPosition::Right
        },
        EditGroup::DateTime => CursorPosition::Center,
        EditGroup::Watering => if field < 2 {
            CursorPosition::Left
        } else {
            CursorPosition::Right
        },
    }
}

/// Where the blinking cursor sits for the session's active field.
pub fn cursor_for_field(group: EditGroup, field: u8) -> (position: CursorPosition)
    ensures
        position == spec_cursor_for_field(group, field),
{
    match group {
        EditGroup::Temperature => if field == 0 {
            CursorPosition::Left
        } else {
            CursorPosition::Right
        },
        EditGroup::Humidity => if field == 0 {
            CursorPosition::Left
        } else {
            CursorPosition::Right
        },
        EditGroup::DateTime => CursorPosition::Center,
        EditGroup::Watering => if field < 2 {
            CursorPosition::Left
        } else {
            CursorPosition::Right
        },
    }
}

/// The display's first line while a field is edited: the threshold pair
/// as `low - high` (with percent signs for humidity), the active
/// date-time component by name, or the watering window.
pub open spec fn caption_text(p: Preferences, group: EditGroup, field: u8) -> Seq<char> {
    match group {
        EditGroup::Temperature => decimal(p.temperature.low as int) + (" - ")@ + decimal(
            p.temperature.high as int,
        ),
        EditGroup::Humidity => decimal(p.humidity.low as int) + ("% - ")@ + decimal(
            p.humidity.high as int,
        ) + ("%")@,
        EditGroup::DateTime => {
            if field == 0 {
                ("Minute: ")@ + decimal(p.calendar.minute as int)
            } else if field == 1 {
                ("Hour: ")@ + decimal(p.calendar.hour as int)
            } else if field == 2 {
                ("Day: ")@ + decimal(p.calendar.day as int)
            } else if field == 3 {
                ("Month: ")@ + decimal(p.calendar.month as int)
            } else {
                ("Year: ")@ + decimal(p.calendar.year as int)
            }
        },
        EditGroup::Watering => watering_text(p.watering),
    }
}

/// Renders the display's first line for the session's active field.
pub fn edit_caption(prefs: &Preferences, group: EditGroup, field: u8) -> (text: String)
    requires
        group == EditGroup::Watering ==> match prefs.watering {
            Some(w) => w.bounds_ok(),
            None => true,
        },
    ensures
        text@ == caption_text(*prefs, group, field),
{
    let mut text = String::new();
    match group {
        EditGroup::Temperature => {
            push_decimal(&mut text, prefs.temperature.low as u16);
            text.append(" - ");
            push_decimal(&mut text, prefs.temperature.high as u16);
        },
        EditGroup::Humidity => {
            push_decimal(&mut text, prefs.humidity.low as u16);
            text.append("% - ");
            push_decimal(&mut text, prefs.humidity.high as u16);
            text.append("%");
        },
        EditGroup::DateTime => {
            if field == 0 {
                text.append("Minute: ");
                push_decimal(&mut text, prefs.calendar.minute as u16);
            } else if field == 1 {
                text.append("Hour: ");
                push_decimal(&mut text, prefs.calendar.hour as u16);
            } else if field == 2 {
                text.append("Day: ");
                push_decimal(&mut text, prefs.calendar.day as u16);
            } else if field == 3 {
                text.append("Month: ");
                push_decimal(&mut text, prefs.calendar.month as u16);
            } else {
                text.append("Year: ");
                push_decimal(&mut text, prefs.calendar.year);
            }
        },
        EditGroup::Watering => {
            return prefs.format_watering_time();
        },
    }
    assert(text@ =~= caption_text(*prefs, group, field));
    text
}

/// All component invariants except the ordering of the group being
/// edited: what holds of the preferences throughout an edit session.
pub open spec fn wf_except(p: Preferences, group: EditGroup) -> bool {
    &&& p.bounds_ok()
    &&& (group != EditGroup::Temperature ==> p.temperature.ordered())
    &&& (group != EditGroup::Humidity ==> p.humidity.ordered())
    &&& (group != EditGroup::Watering ==> match p.watering {
        Some(w) => w.ordered(),
        None => true,
    })
}

/// Law: an edit session can only break the ordering of the group it
/// edits — a field step keeps every other group's invariant — and the
/// commit restores the edited group's ordering, so the preferences are
/// well-formed again whenever a session ends.
pub proof fn lemma_session_preserves_wf(p: Preferences, group: EditGroup, field: u8, up: bool)
    requires
        wf_except(p, group),
        field < field_count(group),
    ensures
        wf_except(spec_step_field(p, group, field, up), group),
        spec_commit(p, group).wf(),
{
}

} // verus!
