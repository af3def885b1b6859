//! The decisions of the two-button dialog that sets the clock at boot: which
//! field the increment button changes, how it changes it, and what the screen
//! shows in each phase. Reading the buttons and driving the screen is left to
//! the caller.

use vstd::prelude::*;

use crate::time::{DateTime, DayOfWeek};

verus! {

/// The field of the clock that the dialog is setting.
#[derive(Clone, Copy, Debug, PartialEq, Eq, Structural)]
pub enum ButtonPhase {
    ButtonPhaseDayOfWeek,
    ButtonPhaseTimeHourTens,
    ButtonPhaseTimeHourUnits,
    ButtonPhaseTimeMinuteTens,
    ButtonPhaseTimeMinuteUnits,
    ButtonPhaseFinished,
}

impl ButtonPhase {
    /// The phase's position in the dialog, the day of week being 0.
    pub open spec fn ordinal(self) -> nat {
        match self {
            ButtonPhase::ButtonPhaseDayOfWeek => 0,
            ButtonPhase::ButtonPhaseTimeHourTens => 1,
            ButtonPhase::ButtonPhaseTimeHourUnits => 2,
            ButtonPhase::ButtonPhaseTimeMinuteTens => 3,
            ButtonPhase::ButtonPhaseTimeMinuteUnits => 4,
            ButtonPhase::ButtonPhaseFinished => 5,
        }
    }

    pub fn number(self) -> (r: u8)
        ensures
            r == self.ordinal(),
    {
        match self {
            ButtonPhase::ButtonPhaseDayOfWeek => 0,
            ButtonPhase::ButtonPhaseTimeHourTens => 1,
            ButtonPhase::ButtonPhaseTimeHourUnits => 2,
            ButtonPhase::ButtonPhaseTimeMinuteTens => 3,
            ButtonPhase::ButtonPhaseTimeMinuteUnits => 4,
            ButtonPhase::ButtonPhaseFinished => 5,
        }
    }
}

/// The phase at position `n`; every position past the last is the last.
pub open spec fn phase_at(n: int) -> ButtonPhase {
    if n == 0 {
        ButtonPhase::ButtonPhaseDayOfWeek
    } else if n == 1 {
        ButtonPhase::ButtonPhaseTimeHourTens
    } else if n == 2 {
        ButtonPhase::ButtonPhaseTimeHourUnits
    } else if n == 3 {
        ButtonPhase::ButtonPhaseTimeMinuteTens
    } else if n == 4 {
        ButtonPhase::ButtonPhaseTimeMinuteUnits
    } else {
        ButtonPhase::ButtonPhaseFinished
    }
}

pub fn get_button_phase_from_u8(button_phase: &u8) -> (r: ButtonPhase)
    ensures
        r == phase_at(*button_phase as int),
{
    match *button_phase {
        0 => ButtonPhase::ButtonPhaseDayOfWeek,
        1 => ButtonPhase::ButtonPhaseTimeHourTens,
        2 => ButtonPhase::ButtonPhaseTimeHourUnits,
        3 => ButtonPhase::ButtonPhaseTimeMinuteTens,
        4 => ButtonPhase::ButtonPhaseTimeMinuteUnits,
        _ => ButtonPhase::ButtonPhaseFinished,
    }
}

/// The day at position `n` from Sunday; positions past Saturday give Sunday.
pub open spec fn day_at(n: int) -> DayOfWeek {
    if n == 1 {
        DayOfWeek::Monday
    } else if n == 2 {
        DayOfWeek::Tuesday
    } else if n == 3 {
        DayOfWeek::Wednesday
    } else if n == 4 {
        DayOfWeek::Thursday
    } else if n == 5 {
        DayOfWeek::Friday
    } else if n == 6 {
        DayOfWeek::Saturday
    } else {
        DayOfWeek::Sunday
    }
}

pub fn day_of_week_from_u8(v: u8) -> (r: DayOfWeek)
    ensures
        r == day_at(v as int),
        v < 7 ==> r.ordinal() == v,
{
    match v {
        0 => DayOfWeek::Sunday,
        1 => DayOfWeek::Monday,
        2 => DayOfWeek::Tuesday,
        3 => DayOfWeek::Wednesday,
        4 => DayOfWeek::Thursday,
        5 => DayOfWeek::Friday,
        6 => DayOfWeek::Saturday,
        _ => DayOfWeek::Sunday,
    }
}

/// The reading once the increment button has been pressed in `phase`.
///
/// The day of week cycles through the week. The tens of the hour step by ten
/// modulo thirty; the units of the hour cycle within their ten, within 20..23
/// when the tens are two. The tens of the minute step by ten modulo sixty; the
/// units of the minute cycle within their ten.
pub open spec fn incremented(phase: ButtonPhase, t: DateTime) -> DateTime {
    match phase {
        ButtonPhase::ButtonPhaseDayOfWeek => DateTime {
            day_of_week: day_at((t.day_of_week.ordinal() as int + 1) % 7),
            ..t
        },
        ButtonPhase::ButtonPhaseTimeHourTens => DateTime { hour: ((t.hour + 10) % 30) as u8, ..t },
        ButtonPhase::ButtonPhaseTimeHourUnits => DateTime {
            hour: ((t.hour + 1) % (if t.hour / 10 == 2 {
                4int
            } else {
                10int
            }) + t.hour / 10 * 10) as u8,
            ..t
        },
        ButtonPhase::ButtonPhaseTimeMinuteTens => DateTime {
            minute: ((t.minute + 10) % 60) as u8,
            ..t
        },
        ButtonPhase::ButtonPhaseTimeMinuteUnits => DateTime {
            minute: ((t.minute + 1) % 10 + t.minute / 10 * 10) as u8,
            ..t
        },
        ButtonPhase::ButtonPhaseFinished => t,
    }
}

/// The state of the clock-setting dialog: the reading built so far and the
/// field being set.
pub struct DateTimeSetup {
    datetime: DateTime,
    phase: ButtonPhase,
}

impl DateTimeSetup {
    #[verifier::type_invariant]
    spec fn fields_in_reach(self) -> bool {
        self.datetime.hour < 30 && self.datetime.minute < 60
    }

    pub closed spec fn spec_datetime(self) -> DateTime {
        self.datetime
    }

    pub closed spec fn spec_phase(self) -> ButtonPhase {
        self.phase
    }

    /// Starts on Monday 00:00:00 of 0000-01-01, setting the day of week.
    pub fn new() -> (r: Self)
        ensures
            r.spec_datetime() == (DateTime {
                year: 0,
                month: 1,
                day: 1,
                day_of_week: DayOfWeek::Monday,
                hour: 0,
                minute: 0,
                second: 0,
            }),
            r.spec_phase() == ButtonPhase::ButtonPhaseDayOfWeek,
    {
        DateTimeSetup {
            datetime: DateTime {
                year: 0,
                month: 1,
                day: 1,
                day_of_week: DayOfWeek::Monday,
                hour: 0,
                minute: 0,
                second: 0,
            },
            phase: ButtonPhase::ButtonPhaseDayOfWeek,
        }
    }

    pub fn datetime(&self) -> (r: DateTime)
        ensures
            r == self.spec_datetime(),
    {
        self.datetime
    }

    pub fn phase(&self) -> (r: ButtonPhase)
        ensures
            r == self.spec_phase(),
    {
        self.phase
    }

    pub fn is_finished(&self) -> (r: bool)
        ensures
            r == (self.spec_phase() == ButtonPhase::ButtonPhaseFinished),
    {
        self.phase == ButtonPhase::ButtonPhaseFinished
    }

    /// The increment button was pressed: change the field being set.
    pub fn on_increment(&mut self)
        ensures
            final(self).spec_phase() == old(self).spec_phase(),
            final(self).spec_datetime() == incremented(
                old(self).spec_phase(),
                old(self).spec_datetime(),
            ),
    {
        proof {
            use_type_invariant(&*self);
        }
        let t = self.datetime;
        let next = match self.phase {
            ButtonPhase::ButtonPhaseDayOfWeek => {
                let day = t.day_of_week.number_from_sunday() as u8;
                DateTime { day_of_week: day_of_week_from_u8((day + 1) % 7), ..t }
            },
            ButtonPhase::ButtonPhaseTimeHourTens => DateTime { hour: (t.hour + 10) % 30, ..t },
            ButtonPhase::ButtonPhaseTimeHourUnits => {
                let tens = t.hour / 10;
                let span: u8 = if tens == 2 {
                    4
                } else {
                    10
                };
                DateTime { hour: (t.hour + 1) % span + tens * 10, ..t }
            },
            ButtonPhase::ButtonPhaseTimeMinuteTens => DateTime {
                minute: (t.minute + 10) % 60,
                ..t
            },
            ButtonPhase::ButtonPhaseTimeMinuteUnits => DateTime {
                minute: (t.minute + 1) % 10 + t.minute / 10 * 10,
                ..t
            },
            ButtonPhase::ButtonPhaseFinished => t,
        };
        self.datetime = next;
    }

    /// The validate button was pressed: move on to the next field.
    pub fn on_validate(&mut self)
        ensures
            final(self).spec_datetime() == old(self).spec_datetime(),
            final(self).spec_phase() == phase_at(old(self).spec_phase().ordinal() as int + 1),
    {
        proof {
            use_type_invariant(&*self);
        }
        let next = self.phase.number() + 1;
        self.phase = get_button_phase_from_u8(&next);
    }
}

/// The question the dialog shows in each phase.
pub open spec fn prompt_of(phase: ButtonPhase) -> Seq<char> {
    match phase {
        ButtonPhase::ButtonPhaseDayOfWeek => "Jour Semaine ?"@,
        ButtonPhase::ButtonPhaseTimeHourTens => "Dizaine Heure ?"@,
        ButtonPhase::ButtonPhaseTimeHourUnits => "Unite Heure ?"@,
        ButtonPhase::ButtonPhaseTimeMinuteTens => "Dizaine Minute ?"@,
        ButtonPhase::ButtonPhaseTimeMinuteUnits => "Unite Minute ?"@,
        ButtonPhase::ButtonPhaseFinished => "Finished ?"@,
    }
}

pub fn button_phase_prompt(phase: ButtonPhase) -> (r: &'static str)
    ensures
        r@ == prompt_of(phase),
{
    match phase {
        ButtonPhase::ButtonPhaseDayOfWeek => "Jour Semaine ?",
        ButtonPhase::ButtonPhaseTimeHourTens => "Dizaine Heure ?",
        ButtonPhase::ButtonPhaseTimeHourUnits => "Unite Heure ?",
        ButtonPhase::ButtonPhaseTimeMinuteTens => "Dizaine Minute ?",
        ButtonPhase::ButtonPhaseTimeMinuteUnits => "Unite Minute ?",
        ButtonPhase::ButtonPhaseFinished => "Finished ?",
    }
}

/// The name the screen gives each day.
pub open spec fn day_name_of(day: DayOfWeek) -> Seq<char> {
    match day {
        DayOfWeek::Monday => "Lundi"@,
        DayOfWeek::Tuesday => "Mardi"@,
        DayOfWeek::Wednesday => "Mercredi"@,
        DayOfWeek::Thursday => "Jeudi"@,
        DayOfWeek::Friday => "Vendredi"@,
        DayOfWeek::Saturday => "Samedi"@,
        DayOfWeek::Sunday => "Dimanche"@,
    }
}

pub fn day_of_week_name(day: DayOfWeek) -> (r: &'static str)
    ensures
        r@ == day_name_of(day),
{
    match day {
        DayOfWeek::Monday => "Lundi",
        DayOfWeek::Tuesday => "Mardi",
        DayOfWeek::Wednesday => "Mercredi",
        DayOfWeek::Thursday => "Jeudi",
        DayOfWeek::Friday => "Vendredi",
        DayOfWeek::Saturday => "Samedi",
        DayOfWeek::Sunday => "Dimanche",
    }
}

/// What the second line of the screen shows in a phase.
#[derive(Clone, Copy, Debug, PartialEq, Eq, Structural)]
pub enum SetupValue {
    DayName,
    HoursAndMinutes,
    Nothing,
}

pub fn value_shown(phase: ButtonPhase) -> (r: SetupValue)
    ensures
        phase == ButtonPhase::ButtonPhaseDayOfWeek ==> r == SetupValue::DayName,
        phase == ButtonPhase::ButtonPhaseFinished ==> r == SetupValue::Nothing,
        phase != ButtonPhase::ButtonPhaseDayOfWeek && phase != ButtonPhase::ButtonPhaseFinished
            ==> r == SetupValue::HoursAndMinutes,
{
    match phase {
        ButtonPhase::ButtonPhaseDayOfWeek => SetupValue::DayName,
        ButtonPhase::ButtonPhaseFinished => SetupValue::Nothing,
        _ => SetupValue::HoursAndMinutes,
    }
}

/// The column of the digit being set on the `HH:MM` line, if a digit is.
pub fn blink_column(phase: ButtonPhase) -> (r: Option<u8>)
    ensures
        r == match phase {
            ButtonPhase::ButtonPhaseTimeHourTens => Some(0u8),
            ButtonPhase::ButtonPhaseTimeHourUnits => Some(1u8),
            ButtonPhase::ButtonPhaseTimeMinuteTens => Some(3u8),
            ButtonPhase::ButtonPhaseTimeMinuteUnits => Some(4u8),
            _ => None,
        },
{
    match phase {
        ButtonPhase::ButtonPhaseTimeHourTens => Some(0),
        ButtonPhase::ButtonPhaseTimeHourUnits => Some(1),
        ButtonPhase::ButtonPhaseTimeMinuteTens => Some(3),
        ButtonPhase::ButtonPhaseTimeMinuteUnits => Some(4),
        _ => None,
    }
}

} // verus!
