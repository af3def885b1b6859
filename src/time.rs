//! Points in the week: the day of week, the wall-clock reading handed in each
//! tick, and the start instant of a recurring weekly window.

use vstd::prelude::*;

verus! {

pub const SECONDS_PER_DAY: u32 = 24 * 60 * 60;

pub const SECONDS_PER_WEEK: u32 = 7 * 24 * 60 * 60;

/// Seconds elapsed since the start of the week (Sunday 00:00:00).
pub open spec fn seconds_into_week(day: int, hour: int, minute: int, second: int) -> int {
    day * 86400 + hour * 3600 + minute * 60 + second
}

/// A day of the week, counted from Sunday.
#[derive(Clone, Copy, Debug, PartialEq, Eq, Structural)]
pub enum DayOfWeek {
    Sunday,
    Monday,
    Tuesday,
    Wednesday,
    Thursday,
    Friday,
    Saturday,
}

impl DayOfWeek {
    /// The day's position in the week, Sunday being 0.
    pub open spec fn ordinal(self) -> nat {
        match self {
            DayOfWeek::Sunday => 0,
            DayOfWeek::Monday => 1,
            DayOfWeek::Tuesday => 2,
            DayOfWeek::Wednesday => 3,
            DayOfWeek::Thursday => 4,
            DayOfWeek::Friday => 5,
            DayOfWeek::Saturday => 6,
        }
    }

    pub fn number_from_sunday(self) -> (r: u32)
        ensures
            r == self.ordinal(),
            r < 7,
    {
        match self {
            DayOfWeek::Sunday => 0,
            DayOfWeek::Monday => 1,
            DayOfWeek::Tuesday => 2,
            DayOfWeek::Wednesday => 3,
            DayOfWeek::Thursday => 4,
            DayOfWeek::Friday => 5,
            DayOfWeek::Saturday => 6,
        }
    }
}

/// A wall-clock reading as the real-time clock reports it.
///
/// Only the day of week and the time of day take part in the weekly logic.
#[derive(Clone, Copy, Debug, PartialEq, Eq, Structural)]
pub struct DateTime {
    pub year: u16,
    pub month: u8,
    pub day: u8,
    pub day_of_week: DayOfWeek,
    pub hour: u8,
    pub minute: u8,
    pub second: u8,
}

impl DateTime {
    /// Seconds since the start of the week at which this reading stands.
    pub open spec fn week_offset(self) -> int {
        seconds_into_week(
            self.day_of_week.ordinal() as int,
            self.hour as int,
            self.minute as int,
            self.second as int,
        )
    }

    /// Whether the time of day lies in its usual ranges.
    pub open spec fn has_valid_time(self) -> bool {
        self.hour < 24 && self.minute < 60 && self.second < 60
    }

    pub fn seconds_since_week_start(&self) -> (r: u32)
        ensures
            r == self.week_offset(),
            self.has_valid_time() ==> r < SECONDS_PER_WEEK,
    {
        let day = self.day_of_week.number_from_sunday();
        let mut seconds: u32 = 0;
        seconds += self.second as u32;
        seconds += self.minute as u32 * 60;
        seconds += self.hour as u32 * 60 * 60;
        seconds += day * SECONDS_PER_DAY;
        seconds
    }
}

/// The start instant of a window that recurs every week.
#[derive(Clone, Copy, Debug)]
pub struct WeeklyDate {
    day_of_week: DayOfWeek,
    hour: u32,
    minute: u32,
    second: u32,
}

impl WeeklyDate {
    #[verifier::type_invariant]
    spec fn is_in_range(self) -> bool {
        self.hour < 24 && self.minute < 60 && self.second < 60
    }

    pub closed spec fn spec_day_of_week(self) -> DayOfWeek {
        self.day_of_week
    }

    pub closed spec fn spec_hour(self) -> u32 {
        self.hour
    }

    pub closed spec fn spec_minute(self) -> u32 {
        self.minute
    }

    pub closed spec fn spec_second(self) -> u32 {
        self.second
    }

    /// Seconds since the start of the week at which the window opens.
    pub open spec fn offset(self) -> int {
        seconds_into_week(
            self.spec_day_of_week().ordinal() as int,
            self.spec_hour() as int,
            self.spec_minute() as int,
            self.spec_second() as int,
        )
    }

    pub fn new(day_of_week: DayOfWeek, hour: u32, minute: u32, second: u32) -> (r: Self)
        requires
            hour < 24,
            minute < 60,
            second < 60,
        ensures
            r.spec_day_of_week() == day_of_week,
            r.spec_hour() == hour,
            r.spec_minute() == minute,
            r.spec_second() == second,
    {
        WeeklyDate { day_of_week, hour, minute, second }
    }

    pub fn seconds_since_week_start(&self) -> (r: u32)
        ensures
            r == self.offset(),
            r < SECONDS_PER_WEEK,
    {
        proof {
            use_type_invariant(self);
        }
        let day = self.day_of_week.number_from_sunday();
        let mut seconds: u32 = 0;
        seconds += self.second;
        seconds += self.minute * 60;
        seconds += self.hour * 60 * 60;
        seconds += day * SECONDS_PER_DAY;
        seconds
    }
}

} // verus!
