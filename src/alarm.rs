//! An alarm: a weekly window, the actions it fires inside that window, and the
//! armed/disarmed state that lets it fire once per entry into the window.

use arrayvec::ArrayString;
use vstd::arithmetic::div_mod::lemma_fundamental_div_mod_converse;
use vstd::prelude::*;

use crate::callback::Callback;
use crate::time::{DateTime, WeeklyDate, SECONDS_PER_WEEK};

verus! {

/// Whether the weekly window that opens `start` seconds into the week and lasts
/// `duration` seconds holds the instant `now` seconds into the week.
///
/// Both endpoints count. A window that runs past the end of the week holds
/// what lies from its start to the end of the week and from the start of the
/// week to its end taken modulo the week.
pub open spec fn in_window(start: int, duration: int, now: int) -> bool {
    let end = start + duration;
    if end < SECONDS_PER_WEEK {
        start <= now <= end
    } else {
        now >= start || now <= end - SECONDS_PER_WEEK
    }
}

/// What the engine sees of an alarm: its window and whether it is armed.
pub struct AlarmState {
    pub start: int,
    pub duration: int,
    pub active: bool,
}

/// Whether an alarm in state `s` runs its primary action at `now`.
pub open spec fn fires(s: AlarmState, now: int) -> bool {
    s.active && in_window(s.start, s.duration, now)
}

/// The state once the primary action has answered with `keep_active`.
pub open spec fn after_signal(s: AlarmState, keep_active: bool) -> AlarmState {
    AlarmState { active: keep_active, ..s }
}

/// The state once the alarm has been offered a rearm at `now`.
pub open spec fn after_rearm(s: AlarmState, now: int) -> AlarmState {
    if !s.active && !in_window(s.start, s.duration, now) {
        AlarmState { active: true, ..s }
    } else {
        s
    }
}

/// Within the week, a window shorter than a week holds exactly the instants
/// at most `duration` seconds after its start, counted modulo the week.
pub proof fn lemma_window_is_modular_interval(start: int, duration: int, now: int)
    requires
        0 <= start < SECONDS_PER_WEEK,
        0 <= duration < SECONDS_PER_WEEK,
        0 <= now < SECONDS_PER_WEEK,
    ensures
        in_window(start, duration, now) <==> (now - start + SECONDS_PER_WEEK) % (
        SECONDS_PER_WEEK as int) <= duration,
{
    let w = SECONDS_PER_WEEK as int;
    if now >= start {
        lemma_fundamental_div_mod_converse(now - start + w, w, 1, now - start);
    } else {
        lemma_fundamental_div_mod_converse(now - start + w, w, 0, now - start + w);
    }
}

/// A window shorter than a week holds both its opening instant and its
/// closing instant, the latter taken modulo the week.
pub proof fn lemma_window_includes_endpoints(start: int, duration: int)
    requires
        0 <= start < SECONDS_PER_WEEK,
        0 <= duration < SECONDS_PER_WEEK,
    ensures
        in_window(start, duration, start),
        in_window(start, duration, (start + duration) % (SECONDS_PER_WEEK as int)),
{
    let w = SECONDS_PER_WEEK as int;
    let end = start + duration;
    if end < w {
        lemma_fundamental_div_mod_converse(end, w, 0, end);
    } else {
        lemma_fundamental_div_mod_converse(end, w, 1, end - w);
    }
}

/// One second after its end, taken modulo the week, a window no longer holds,
/// unless it covers the whole week.
pub proof fn lemma_window_excludes_second_after_end(start: int, duration: int)
    requires
        0 <= start < SECONDS_PER_WEEK,
        0 <= duration < SECONDS_PER_WEEK - 1,
    ensures
        !in_window(start, duration, (start + duration + 1) % (SECONDS_PER_WEEK as int)),
{
    let w = SECONDS_PER_WEEK as int;
    let after = start + duration + 1;
    if after < w {
        lemma_fundamental_div_mod_converse(after, w, 0, after);
    } else {
        lemma_fundamental_div_mod_converse(after, w, 1, after - w);
    }
}

/// A window that runs past the end of the week holds, within the week, exactly
/// the instants from its start on and those up to its end taken modulo the week.
pub proof fn lemma_wrapped_window(start: int, duration: int, now: int)
    requires
        0 <= start < SECONDS_PER_WEEK,
        0 <= duration < SECONDS_PER_WEEK,
        start + duration >= SECONDS_PER_WEEK,
        0 <= now < SECONDS_PER_WEEK,
    ensures
        in_window(start, duration, now) <==> (start <= now || now <= (start + duration) % (
        SECONDS_PER_WEEK as int)),
{
    let w = SECONDS_PER_WEEK as int;
    lemma_fundamental_div_mod_converse(start + duration, w, 1, start + duration - w);
}

/// Once the primary action has asked the alarm to stand down, the alarm is
/// disarmed and fires at no instant, however often it is triggered.
pub proof fn lemma_abort_silences_alarm(s: AlarmState, now: int, later: int)
    requires
        fires(s, now),
    ensures
        !after_signal(s, false).active,
        !fires(after_signal(s, false), later),
{
}

/// A disarmed alarm stays disarmed while the current instant is inside its
/// window, and is armed again once the instant has left it.
pub proof fn lemma_rearm_waits_for_window_exit(s: AlarmState, now: int)
    requires
        !s.active,
    ensures
        in_window(s.start, s.duration, now) ==> after_rearm(s, now) == s,
        !in_window(s.start, s.duration, now) ==> after_rearm(s, now) == (AlarmState {
            active: true,
            ..s
        }),
{
}

/// Rearming and then triggering at the same instant fires exactly when
/// triggering alone would: an alarm armed again because the instant lies
/// outside its window cannot fire in that same tick.
pub proof fn lemma_rearm_never_fires_in_same_tick(s: AlarmState, now: int)
    ensures
        fires(after_rearm(s, now), now) == fires(s, now),
{
}

/// Something that fires its action when the current time calls for it.
pub trait Triggerable {
    fn trigger(&mut self, current_time: DateTime) -> bool;
}

/// Something that can be armed again once its window has passed.
pub trait Armable {
    fn rearm(&mut self, current_time: DateTime);
}

pub struct Alarm<C, D> {
    date: WeeklyDate,
    description: ArrayString<16>,
    total_duration_sec: u32,
    intense_duration_sec: u32,
    pause_duration_sec: u32,
    aggressive_action: C,
    gentle_action: D,
    is_active: bool,
}

impl<C, D> View for Alarm<C, D> {
    type V = AlarmState;

    closed spec fn view(&self) -> AlarmState {
        AlarmState {
            start: self.date.offset(),
            duration: self.total_duration_sec as int,
            active: self.is_active,
        }
    }
}

impl<C, D> Alarm<C, D> {
    /// The same alarm, disarmed: two alarms agree on this when they differ at
    /// most in whether they are armed.
    pub closed spec fn disarmed(self) -> Self {
        Alarm { is_active: false, ..self }
    }

    /// Two alarms that agree once disarmed share their window and every field
    /// but the armed flag.
    pub proof fn lemma_same_when_disarmed(a: Self, b: Self)
        requires
            a.disarmed() == b.disarmed(),
        ensures
            a@.start == b@.start,
            a@.duration == b@.duration,
            a.spec_description() == b.spec_description(),
            a.spec_intense_duration_sec() == b.spec_intense_duration_sec(),
            a.spec_pause_duration_sec() == b.spec_pause_duration_sec(),
    {
    }

    /// Whether this alarm's window holds `now`.
    pub open spec fn covers(self, now: DateTime) -> bool {
        in_window(self@.start, self@.duration, now.week_offset())
    }

    pub closed spec fn spec_description(self) -> ArrayString<16> {
        self.description
    }

    pub closed spec fn spec_intense_duration_sec(self) -> u32 {
        self.intense_duration_sec
    }

    pub closed spec fn spec_pause_duration_sec(self) -> u32 {
        self.pause_duration_sec
    }

    pub fn new(
        date: WeeklyDate,
        description: ArrayString<16>,
        total_duration_sec: u32,
        intense_duration_sec: u32,
        pause_duration_sec: u32,
        aggressive_action: C,
        gentle_action: D,
    ) -> (r: Self)
        requires
            total_duration_sec < SECONDS_PER_WEEK,
        ensures
            r@ == (AlarmState { start: date.offset(), duration: total_duration_sec as int, active: true }),
            r.spec_description() == description,
            r.spec_intense_duration_sec() == intense_duration_sec,
            r.spec_pause_duration_sec() == pause_duration_sec,
    {
        Alarm {
            date,
            description,
            total_duration_sec,
            intense_duration_sec,
            pause_duration_sec,
            aggressive_action,
            gentle_action,
            is_active: true,
        }
    }

    pub fn is_date_in_activation_period(&self, current_datetime: DateTime) -> (r: bool)
        ensures
            r == self.covers(current_datetime),
    {
        let seconds_since_week_start = current_datetime.seconds_since_week_start() as u64;
        let trigger_time_in_seconds = self.date.seconds_since_week_start() as u64;
        let end_time_in_seconds = trigger_time_in_seconds + self.total_duration_sec as u64;
        let week = SECONDS_PER_WEEK as u64;
        if end_time_in_seconds < week {
            trigger_time_in_seconds <= seconds_since_week_start
                && seconds_since_week_start <= end_time_in_seconds
        } else {
            seconds_since_week_start >= trigger_time_in_seconds
                || seconds_since_week_start <= end_time_in_seconds - week
        }
    }

    pub fn is_active(&self) -> (r: bool)
        ensures
            r == self@.active,
    {
        self.is_active
    }

    pub fn description(&self) -> (r: ArrayString<16>)
        ensures
            r == self.spec_description(),
    {
        self.description
    }

    pub fn total_duration_sec(&self) -> (r: u32)
        ensures
            r == self@.duration,
    {
        self.total_duration_sec
    }

    /// Reserved for an escalation policy; the window test does not read it.
    pub fn intense_duration_sec(&self) -> (r: u32)
        ensures
            r == self.spec_intense_duration_sec(),
    {
        self.intense_duration_sec
    }

    /// Reserved for an escalation policy; the window test does not read it.
    pub fn pause_duration_sec(&self) -> (r: u32)
        ensures
            r == self.spec_pause_duration_sec(),
    {
        self.pause_duration_sec
    }
}

impl<C, D: Callback> Alarm<C, D> {
    /// Applies the primary action's answer: `false` disarms the alarm and
    /// runs the deactivation action, `true` leaves the alarm armed.
    pub fn handle_action_signal(&mut self, keep_active: bool)
        ensures
            final(self)@ == after_signal(old(self)@, keep_active),
            keep_active ==> final(self).disarmed() == old(self).disarmed(),
            final(self).spec_description() == old(self).spec_description(),
            final(self).spec_intense_duration_sec() == old(self).spec_intense_duration_sec(),
            final(self).spec_pause_duration_sec() == old(self).spec_pause_duration_sec(),
    {
        self.is_active = keep_active;
        if !keep_active {
            self.gentle_action.call();
        }
    }
}

impl<C: Callback, D: Callback> Triggerable for Alarm<C, D> {
    /// Runs the primary action when the alarm is armed and `current_time` lies
    /// in its window, and reports whether it did.
    fn trigger(&mut self, current_time: DateTime) -> (fired: bool)
        ensures
            fired == fires(old(self)@, current_time.week_offset()),
            !old(self).covers(current_time) ==> !fired,
            !fired ==> *final(self) == *old(self),
            final(self)@.start == old(self)@.start,
            final(self)@.duration == old(self)@.duration,
            final(self)@.active ==> old(self)@.active,
            final(self).spec_description() == old(self).spec_description(),
            final(self).spec_intense_duration_sec() == old(self).spec_intense_duration_sec(),
            final(self).spec_pause_duration_sec() == old(self).spec_pause_duration_sec(),
    {
        if self.is_active && self.is_date_in_activation_period(current_time) {
            let keep_active = self.aggressive_action.call();
            self.handle_action_signal(keep_active);
            true
        } else {
            false
        }
    }
}

impl<C, D> Armable for Alarm<C, D> {
    /// Arms a disarmed alarm again once `current_time` has left its window.
    fn rearm(&mut self, current_time: DateTime)
        ensures
            final(self)@ == after_rearm(old(self)@, current_time.week_offset()),
            final(self).disarmed() == old(self).disarmed(),
    {
        if !self.is_active && !self.is_date_in_activation_period(current_time) {
            self.is_active = true;
        }
    }
}

} // verus!
