//! Operator-edited preferences: the calendar, acceptable temperature and
//! humidity ranges, and an optional daily watering window.

use vstd::prelude::*;

use crate::calendar::{date_text, spec_days_in_month, spec_tick, time_text, Calendar};
use crate::stepper::spec_step;
use crate::text::{padded2, push_padded2};

verus! {

/// Largest editable temperature bound, in degrees Fahrenheit.  The edit
/// session clamps both temperature bounds to `[0, TEMPERATURE_MAX_F]`.
pub const TEMPERATURE_MAX_F: u8 = 120;

/// Largest editable humidity bound, in percent relative humidity.  The
/// edit session clamps both humidity bounds to `[0, HUMIDITY_MAX_PCT]`.
pub const HUMIDITY_MAX_PCT: u8 = 100;

/// An acceptable `(low, high)` bound pair for one measured quantity.
#[derive(Clone, Copy, Debug, PartialEq, Eq, Structural)]
pub struct ThresholdRange {
    pub low: u8,
    pub high: u8,
}

impl ThresholdRange {
    /// The ordering invariant that holds after every committed edit.
    pub open spec fn ordered(self) -> bool {
        self.low <= self.high
    }

    /// This range with its bounds swapped if they are out of order.
    pub open spec fn spec_normalized(self) -> ThresholdRange {
        if self.low <= self.high {
            self
        } else {
            ThresholdRange { low: self.high, high: self.low }
        }
    }

    /// Restores the ordering invariant by swapping out-of-order bounds.
    pub fn normalized(self) -> (range: ThresholdRange)
        ensures
            range == self.spec_normalized(),
            range.ordered(),
    {
        if self.low <= self.high {
            self
        } else {
            ThresholdRange { low: self.high, high: self.low }
        }
    }
}

/// A daily watering window; its absence means no scheduled watering.
#[derive(Clone, Copy, Debug, PartialEq, Eq, Structural)]
pub struct WateringWindow {
    pub start_hour: u8,
    pub start_minute: u8,
    pub end_hour: u8,
    pub end_minute: u8,
}

/// Minutes since midnight of a time of day.
pub open spec fn minutes_of(hour: u8, minute: u8) -> int {
    hour * 60 + minute
}

impl WateringWindow {
    /// Every field inside its unit's range.
    pub open spec fn bounds_ok(self) -> bool {
        &&& self.start_hour < 24
        &&& self.start_minute < 60
        &&& self.end_hour < 24
        &&& self.end_minute < 60
    }

    /// The window's start, in minutes since midnight.
    pub open spec fn start_minutes(self) -> int {
        minutes_of(self.start_hour, self.start_minute)
    }

    /// The window's end, in minutes since midnight.
    pub open spec fn end_minutes(self) -> int {
        minutes_of(self.end_hour, self.end_minute)
    }

    /// The chronological invariant that holds after every committed edit:
    /// the window never spans midnight.
    pub open spec fn ordered(self) -> bool {
        self.start_minutes() <= self.end_minutes()
    }

    /// This window with start and end swapped if they are out of order.
    pub open spec fn spec_normalized(self) -> WateringWindow {
        if self.start_minutes() <= self.end_minutes() {
            self
        } else {
            WateringWindow {
                start_hour: self.end_hour,
                start_minute: self.end_minute,
                end_hour: self.start_hour,
                end_minute: self.start_minute,
            }
        }
    }

    /// Restores the chronological invariant by swapping an out-of-order
    /// start and end.
    pub fn normalized(self) -> (window: WateringWindow)
        ensures
            window == self.spec_normalized(),
            window.ordered(),
            self.bounds_ok() ==> window.bounds_ok(),
    {
        let start_total: u16 = (self.start_hour as u16) * 60 + (self.start_minute as u16);
        let end_total: u16 = (self.end_hour as u16) * 60 + (self.end_minute as u16);
        if start_total <= end_total {
            self
        } else {
            WateringWindow {
                start_hour: self.end_hour,
                start_minute: self.end_minute,
                end_hour: self.start_hour,
                end_minute: self.start_minute,
            }
        }
    }
}

/// The consumer-selected acceptable range for each measured category,
/// together with the running calendar and the watering schedule.
///
/// - `temperature`: acceptable range in degrees Fahrenheit
/// - `humidity`: acceptable relative-humidity percentage range
/// - `calendar`: the current date and time
/// - `watering`: the optional daily window when sprinklers run
#[derive(Clone, Copy, Debug)]
pub struct Preferences {
    pub calendar: Calendar,
    pub temperature: ThresholdRange,
    pub humidity: ThresholdRange,
    pub watering: Option<WateringWindow>,
}

/// Whether the calendar's time of day falls inside the watering window,
/// both bounds inclusive; `false` when no window is set.
pub open spec fn spec_is_watering_time(p: Preferences) -> bool {
    match p.watering {
        Some(w) => w.start_minutes() <= minutes_of(p.calendar.hour, p.calendar.minute)
            <= w.end_minutes(),
        None => false,
    }
}

/// The `HH:MM - HH:MM` rendering of a watering window, or `None` when
/// absent.
pub open spec fn watering_text(w: Option<WateringWindow>) -> Seq<char> {
    match w {
        Some(w) => padded2(w.start_hour as int) + seq![':'] + padded2(w.start_minute as int)
            + seq![' ', '-', ' '] + padded2(w.end_hour as int) + seq![':'] + padded2(
            w.end_minute as int,
        ),
        None => seq!['N', 'o', 'n', 'e'],
    }
}

impl Preferences {
    /// Every component invariant at once: calendar field bounds, both
    /// threshold ranges ordered and inside their editable bounds, and the
    /// watering window (when present) in range and not spanning midnight.
    pub open spec fn wf(self) -> bool {
        &&& self.calendar.wf()
        &&& self.temperature.ordered()
        &&& self.temperature.high <= TEMPERATURE_MAX_F
        &&& self.humidity.ordered()
        &&& self.humidity.high <= HUMIDITY_MAX_PCT
        &&& match self.watering {
            Some(w) => w.bounds_ok() && w.ordered(),
            None => true,
        }
    }

    /// The field-bound half of [`Preferences::wf`], without the ordering
    /// invariants: what still holds in the middle of an edit session,
    /// where a threshold pair or the watering window may transiently be
    /// out of order.
    pub open spec fn bounds_ok(self) -> bool {
        &&& self.calendar.wf()
        &&& self.temperature.low <= TEMPERATURE_MAX_F
        &&& self.temperature.high <= TEMPERATURE_MAX_F
        &&& self.humidity.low <= HUMIDITY_MAX_PCT
        &&& self.humidity.high <= HUMIDITY_MAX_PCT
        &&& match self.watering {
            Some(w) => w.bounds_ok(),
            None => true,
        }
    }

    /// The power-on preferences: temperature 60-80 °F, humidity 60-70 %,
    /// calendar at midnight January 1st 2000, no watering window.
    pub open spec fn spec_default() -> Preferences {
        Preferences {
            calendar: Calendar::spec_default(),
            temperature: ThresholdRange { low: 60, high: 80 },
            humidity: ThresholdRange { low: 60, high: 70 },
            watering: None,
        }
    }

    /// Increments the calendar by one second; no other field changes.
    pub fn tick_time(&mut self)
        requires
            old(self).calendar.wf(),
        ensures
            final(self).calendar == spec_tick(old(self).calendar),
            final(self).calendar.wf(),
            final(self).temperature == old(self).temperature,
            final(self).humidity == old(self).humidity,
            final(self).watering == old(self).watering,
    {
        self.calendar.tick();
    }

    /// The date and time, each rendered for the display.
    ///
    /// Returns `(HH:MM:SS, DD/MM/YYYY)`, every two-digit field
    /// zero-padded and the year printed as-is.
    pub fn get_date_formatted(&self) -> (texts: (String, String))
        requires
            self.calendar.wf(),
        ensures
            texts.0@ == time_text(self.calendar),
            texts.1@ == date_text(self.calendar),
    {
        (self.calendar.format_time(), self.calendar.format_date())
    }

    /// The next day number when stepping the day field cyclically through
    /// the current month, wrapping at the month's length.
    pub fn change_days(&self, increment: bool) -> (next_day: u8)
        requires
            self.calendar.wf(),
        ensures
            next_day == spec_step(
                self.calendar.day,
                1,
                spec_days_in_month(self.calendar.month, self.calendar.year),
                increment,
            ),
            1 <= next_day <= spec_days_in_month(self.calendar.month, self.calendar.year),
    {
        self.calendar.step_day(increment)
    }

    /// The number of days in the calendar's current month.
    pub fn get_days_in_month(&self) -> (days: u8)
        ensures
            days == spec_days_in_month(self.calendar.month, self.calendar.year),
            28 <= days <= 31,
    {
        self.calendar.days_in_month()
    }

    /// Whether the sprinklers should run on schedule: the current time,
    /// converted to minutes since midnight, lies inside the watering
    /// window (both bounds inclusive).  `false` when no window is set.
    pub fn is_watering_time(&self) -> (watering: bool)
        ensures
            watering == spec_is_watering_time(*self),
    {
        match self.watering {
            Some(window) => {
                let current_minutes: u16 = (self.calendar.hour as u16) * 60 + (
                self.calendar.minute as u16);
                let start_minutes: u16 = (window.start_hour as u16) * 60 + (
                window.start_minute as u16);
                let end_minutes: u16 = (window.end_hour as u16) * 60 + (window.end_minute as u16);
                start_minutes <= current_minutes && current_minutes <= end_minutes
            },
            None => false,
        }
    }

    /// The watering window rendered as `HH:MM - HH:MM`, or `None` when no
    /// window is set.
    pub fn format_watering_time(&self) -> (text: String)
        requires
            match self.watering {
                Some(w) => w.bounds_ok(),
                None => true,
            },
        ensures
            text@ == watering_text(self.watering),
    {
        let mut text = String::new();
        match self.watering {
            Some(window) => {
                proof {
                    reveal_strlit(":");
                    reveal_strlit(" - ");
                }
                push_padded2(&mut text, window.start_hour);
                text.append(":");
                push_padded2(&mut text, window.start_minute);
                text.append(" - ");
                push_padded2(&mut text, window.end_hour);
                text.append(":");
                push_padded2(&mut text, window.end_minute);
                assert(text@ =~= watering_text(self.watering));
            },
            None => {
                proof {
                    reveal_strlit("None");
                }
                text.append("None");
                assert(text@ =~= watering_text(self.watering));
            },
        }
        text
    }

    /// Materializes the default watering window, `00:00` to `01:00`.
    pub fn set_default_watering_time(&mut self)
        ensures
            final(self).watering == Some(
                WateringWindow { start_hour: 0, start_minute: 0, end_hour: 1, end_minute: 0 },
            ),
            final(self).calendar == old(self).calendar,
            final(self).temperature == old(self).temperature,
            final(self).humidity == old(self).humidity,
    {
        self.watering = Some(
            WateringWindow { start_hour: 0, start_minute: 0, end_hour: 1, end_minute: 0 },
        );
    }
}

impl Default for Preferences {
    /// The power-on preferences; see [`Preferences::spec_default`].
    fn default() -> (prefs: Preferences)
        ensures
            prefs == Preferences::spec_default(),
            prefs.wf(),
    {
        Preferences {
            calendar: Calendar { second: 0, minute: 0, hour: 0, day: 1, month: 1, year: 2000 },
            temperature: ThresholdRange { low: 60, high: 80 },
            humidity: ThresholdRange { low: 60, high: 70 },
            watering: None,
        }
    }
}

} // verus!
