//! Base-loop scheduling: screen navigation, the button cooldown, and the
//! fixed-cadence decision of when to tick the calendar and poll the
//! sensor.

use vstd::prelude::*;

use crate::calendar::spec_tick;
use crate::preferences::Preferences;

verus! {

/// Base loop ticks between sensor polls (and between calendar seconds):
/// one hundred 10 ms ticks make one poll cycle.
pub const TICKS_PER_POLL: u16 = 100;

/// Base loop ticks a navigation button stays on cooldown after firing:
/// fifty 10 ms ticks, about half a second.
pub const NAVIGATION_COOLDOWN_TICKS: u8 = 50;

/// Which preferences view the display shows; stepped cyclically by
/// UP/DOWN navigation.
#[derive(Clone, Copy, Debug, PartialEq, Eq, Structural)]
pub enum Screen {
    Temperature,
    Humidity,
    Pressure,
    DateTime,
    Watering,
}

/// What a base-loop tick decided: which event, if any, the loop should
/// act on this iteration.
#[derive(Clone, Copy, Debug, PartialEq, Eq, Structural)]
pub enum RefreshAction {
    Up,
    Down,
    Select,
    Sensor,
}

/// The screen one navigation step forward (or backward) in the cycle
/// Temperature, Humidity, Pressure, DateTime, Watering.
pub open spec fn spec_next_screen(current: Screen, forward: bool) -> Screen {
    if forward {
        match current {
            Screen::Temperature => Screen::Humidity,
            Screen::Humidity => Screen::Pressure,
            Screen::Pressure => Screen::DateTime,
            Screen::DateTime => Screen::Watering,
            Screen::Watering => Screen::Temperature,
        }
    } else {
        match current {
            Screen::Temperature => Screen::Watering,
            Screen::Humidity => Screen::Temperature,
            Screen::Pressure => Screen::Humidity,
            Screen::DateTime => Screen::Pressure,
            Screen::Watering => Screen::DateTime,
        }
    }
}

/// Steps the displayed screen one place through the cycle, forward when
/// `next` and backward otherwise.
pub fn next_screen(current_screen: Screen, next: bool) -> (screen: Screen)
    ensures
        screen == spec_next_screen(current_screen, next),
{
    if next {
        match current_screen {
            Screen::Temperature => Screen::Humidity,
            Screen::Humidity => Screen::Pressure,
            Screen::Pressure => Screen::DateTime,
            Screen::DateTime => Screen::Watering,
            Screen::Watering => Screen::Temperature,
        }
    } else {
        match current_screen {
            Screen::Temperature => Screen::Watering,
            Screen::Humidity => Screen::Temperature,
            Screen::Pressure => Screen::Humidity,
            Screen::DateTime => Screen::Pressure,
            Screen::Watering => Screen::DateTime,
        }
    }
}

/// Counts the navigation cooldown down by one tick, stopping at zero.
pub fn tick_buttons(cooldown: u8) -> (new_cooldown: u8)
    ensures
        new_cooldown == if cooldown > 0 {
            (cooldown - 1) as u8
        } else {
            0u8
        },
{
    if cooldown > 0 {
        cooldown - 1
    } else {
        cooldown
    }
}

/// One base-loop tick of the scheduler.
///
/// Advances the tick counter; every `TICKS_PER_POLL`-th tick advances the
/// calendar by one second.  A held button wins over the sensor: the
/// returned action is UP, then DOWN, then SELECT, in that priority.  With
/// no button held, a sensor poll is due once the counter reaches
/// `TICKS_PER_POLL`, and the counter resets only then — so held buttons
/// postpone the poll but never the calendar.
pub fn should_update(
    up: bool,
    down: bool,
    select: bool,
    wait_time: &mut u16,
    prefs: &mut Preferences,
) -> (update: (bool, RefreshAction))
    requires
        *old(wait_time) < u16::MAX,
        old(prefs).calendar.wf(),
    ensures
        *final(wait_time) == if !up && !down && !select && *old(wait_time) + 1 >= TICKS_PER_POLL {
            0int
        } else {
            *old(wait_time) + 1
        },
        final(prefs).calendar == if (*old(wait_time) + 1) % (TICKS_PER_POLL as int) == 0 {
            spec_tick(old(prefs).calendar)
        } else {
            old(prefs).calendar
        },
        final(prefs).calendar.wf(),
        final(prefs).temperature == old(prefs).temperature,
        final(prefs).humidity == old(prefs).humidity,
        final(prefs).watering == old(prefs).watering,
        update.1 == if up {
            RefreshAction::Up
        } else if down {
            RefreshAction::Down
        } else if select {
            RefreshAction::Select
        } else {
            RefreshAction::Sensor
        },
        update.0 == (up || down || select || *old(wait_time) + 1 >= TICKS_PER_POLL),
{
    *wait_time = *wait_time + 1;
    // Keep wall-clock time tracked whether or not a button is held.
    if *wait_time % TICKS_PER_POLL == 0 {
        prefs.tick_time();
    }

    // Button presses take priority over the sensor poll.
    if up {
        return (true, RefreshAction::Up);
    } else if down {
        return (true, RefreshAction::Down);
    } else if select {
        return (true, RefreshAction::Select);
    }

    if *wait_time >= TICKS_PER_POLL {
        *wait_time = 0;
        return (true, RefreshAction::Sensor);
    }
    (false, RefreshAction::Sensor)
}

} // verus!
