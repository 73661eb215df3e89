//! Wall-clock calendar: seconds through years with carry propagation and
//! leap-year-aware day-in-month bounds.  Pure data plus arithmetic; the
//! calendar only advances by counting fixed-duration polling ticks.

use vstd::prelude::*;

use crate::stepper::{inclusive_iterator, spec_step};
use crate::text::{decimal, padded2, push_decimal, push_padded2};

verus! {

/// Current date and time, one field per unit.
///
/// Mutated only by [`Calendar::tick`] (one-second carry cascade) and by
/// direct field edits during an edit session; never destroyed.
#[derive(Clone, Copy, Debug, PartialEq, Eq, Structural)]
pub struct Calendar {
    pub second: u8,
    pub minute: u8,
    pub hour: u8,
    pub day: u8,
    pub month: u8,
    pub year: u16,
}

/// Leap years: divisible by 4, except century years not divisible by 400.
pub open spec fn spec_is_leap_year(year: u16) -> bool {
    year % 4 == 0 && (year % 100 != 0 || year % 400 == 0)
}

/// Days in a month: February has 29 in a leap year and 28 otherwise;
/// April, June, September and November have 30; the rest have 31.
pub open spec fn spec_days_in_month(month: u8, year: u16) -> u8 {
    if month == 2 {
        if spec_is_leap_year(year) {
            29
        } else {
            28
        }
    } else if month == 4 || month == 6 || month == 9 || month == 11 {
        30
    } else {
        31
    }
}

/// The calendar one second later: each overflowing unit carries into the
/// next larger one, with the day bound recomputed for the month the carry
/// lands in.  Month overflow resets to January and increments the year;
/// the year wraps around at its maximum (an accepted non-goal, not
/// corrected).
pub open spec fn spec_tick(c: Calendar) -> Calendar {
    if c.second < 59 {
        Calendar { second: (c.second + 1) as u8, ..c }
    } else if c.minute < 59 {
        Calendar { second: 0, minute: (c.minute + 1) as u8, ..c }
    } else if c.hour < 23 {
        Calendar { second: 0, minute: 0, hour: (c.hour + 1) as u8, ..c }
    } else if c.day < spec_days_in_month(c.month, c.year) {
        Calendar { second: 0, minute: 0, hour: 0, day: (c.day + 1) as u8, ..c }
    } else if c.month < 12 {
        Calendar { second: 0, minute: 0, hour: 0, day: 1, month: (c.month + 1) as u8, ..c }
    } else {
        Calendar {
            second: 0,
            minute: 0,
            hour: 0,
            day: 1,
            month: 1,
            year: if c.year == u16::MAX {
                0
            } else {
                (c.year + 1) as u16
            },
        }
    }
}

impl Calendar {
    /// Field bounds: every unit in range, and the day never exceeding the
    /// number of days in the current month.
    pub open spec fn wf(self) -> bool {
        &&& self.second < 60
        &&& self.minute < 60
        &&& self.hour < 24
        &&& 1 <= self.month <= 12
        &&& 1 <= self.day <= spec_days_in_month(self.month, self.year)
    }

    /// The default power-on calendar: midnight, January 1st, 2000.
    pub open spec fn spec_default() -> Calendar {
        Calendar { second: 0, minute: 0, hour: 0, day: 1, month: 1, year: 2000 }
    }

    /// Whether `year` is a leap year.
    pub fn is_leap_year(year: u16) -> (leap: bool)
        ensures
            leap == spec_is_leap_year(year),
    {
        year % 4 == 0 && (year % 100 != 0 || year % 400 == 0)
    }

    /// The number of days in this calendar's current month.
    pub fn days_in_month(&self) -> (days: u8)
        ensures
            days == spec_days_in_month(self.month, self.year),
            28 <= days <= 31,
    {
        match self.month {
            2 => {
                if Self::is_leap_year(self.year) {
                    29
                } else {
                    28
                }
            },
            4 | 6 | 9 | 11 => 30,
            _ => 31,
        }
    }

    /// Advances the calendar by one second, cascading any overflow upward
    /// one unit at a time.
    pub fn tick(&mut self)
        requires
            old(self).wf(),
        ensures
            *final(self) == spec_tick(*old(self)),
            final(self).wf(),
    {
        if self.second < 59 {
            self.second = self.second + 1;
            return ;
        }
        self.second = 0;
        if self.minute < 59 {
            self.minute = self.minute + 1;
            return ;
        }
        self.minute = 0;
        if self.hour < 23 {
            self.hour = self.hour + 1;
            return ;
        }
        self.hour = 0;
        let days_in_month: u8 = self.days_in_month();
        if self.day < days_in_month {
            self.day = self.day + 1;
            return ;
        }
        self.day = 1;
        if self.month < 12 {
            self.month = self.month + 1;
            return ;
        }
        self.month = 1;
        self.year = if self.year == u16::MAX {
            0
        } else {
            self.year + 1
        };
    }

    /// The next day number when stepping the day field cyclically through
    /// `[1, days_in_month]`.
    pub fn step_day(&self, increment: bool) -> (next_day: u8)
        requires
            self.wf(),
        ensures
            next_day == spec_step(self.day, 1, spec_days_in_month(self.month, self.year), increment),
            1 <= next_day <= spec_days_in_month(self.month, self.year),
    {
        let days_in_month: u8 = self.days_in_month();
        inclusive_iterator(self.day, 1, days_in_month, increment)
    }

    /// The time of day as zero-padded `HH:MM:SS`.
    pub fn format_time(&self) -> (text: String)
        requires
            self.wf(),
        ensures
            text@ == time_text(*self),
    {
        proof {
            reveal_strlit(":");
        }
        let mut text = String::new();
        push_padded2(&mut text, self.hour);
        text.append(":");
        push_padded2(&mut text, self.minute);
        text.append(":");
        push_padded2(&mut text, self.second);
        assert(text@ =~= time_text(*self));
        text
    }

    /// The date as zero-padded `DD/MM/` followed by the year in plain
    /// decimal (years are printed as-is, with no padding).
    pub fn format_date(&self) -> (text: String)
        requires
            self.wf(),
        ensures
            text@ == date_text(*self),
    {
        proof {
            reveal_strlit("/");
        }
        let mut text = String::new();
        push_padded2(&mut text, self.day);
        text.append("/");
        push_padded2(&mut text, self.month);
        text.append("/");
        push_decimal(&mut text, self.year);
        assert(text@ =~= date_text(*self));
        text
    }
}

/// The `HH:MM:SS` rendering of a calendar's time of day.
pub open spec fn time_text(c: Calendar) -> Seq<char> {
    padded2(c.hour as int) + seq![':'] + padded2(c.minute as int) + seq![':'] + padded2(
        c.second as int,
    )
}

/// The `DD/MM/YYYY` rendering of a calendar's date.
pub open spec fn date_text(c: Calendar) -> Seq<char> {
    padded2(c.day as int) + seq!['/'] + padded2(c.month as int) + seq!['/'] + decimal(c.year as int)
}

} // verus!
