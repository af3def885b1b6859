//! A set of alarms polled together each tick, always in insertion order.

use vstd::prelude::*;

use crate::alarm::{after_rearm, fires, Alarm, Armable, Triggerable};
use crate::callback::Callback;
use crate::time::DateTime;

verus! {

pub struct AlarmManager<C, D> {
    alarms: Vec<Alarm<C, D>>,
}

impl<C, D> AlarmManager<C, D> {
    /// The alarms, in the order they were handed in.
    pub closed spec fn alarms(&self) -> Seq<Alarm<C, D>> {
        self.alarms@
    }

    pub fn new(alarms: Vec<Alarm<C, D>>) -> (r: Self)
        ensures
            r.alarms() == alarms@,
    {
        AlarmManager { alarms }
    }

    /// Offers every alarm a rearm at `current_time`.
    pub fn rearm_all(&mut self, current_time: &DateTime)
        ensures
            final(self).alarms().len() == old(self).alarms().len(),
            forall|i: int|
                0 <= i < old(self).alarms().len() ==> {
                    &&& #[trigger] final(self).alarms()[i]@ == after_rearm(
                        old(self).alarms()[i]@,
                        current_time.week_offset(),
                    )
                    &&& final(self).alarms()[i].disarmed() == old(self).alarms()[i].disarmed()
                },
    {
        let n = self.alarms.len();
        let mut i: usize = 0;
        while i < n
            invariant
                n == old(self).alarms().len(),
                self.alarms@.len() == n,
                i <= n,
                forall|j: int|
                    0 <= j < i ==> {
                        &&& #[trigger] self.alarms@[j]@ == after_rearm(
                            old(self).alarms()[j]@,
                            current_time.week_offset(),
                        )
                        &&& self.alarms@[j].disarmed() == old(self).alarms()[j].disarmed()
                    },
                forall|j: int| i <= j < n ==> #[trigger] self.alarms@[j] == old(self).alarms()[j],
            decreases n - i,
        {
            self.alarms[i].rearm(*current_time);
            i += 1;
        }
    }
}

impl<C: Callback, D: Callback> AlarmManager<C, D> {
    /// Triggers every alarm at `current_time`; an alarm that is disarmed or
    /// outside its window is left untouched.
    pub fn trigger_all(&mut self, current_time: &DateTime)
        ensures
            final(self).alarms().len() == old(self).alarms().len(),
            forall|i: int|
                0 <= i < old(self).alarms().len() ==> {
                    let before = old(self).alarms()[i];
                    let after = #[trigger] final(self).alarms()[i];
                    &&& !fires(before@, current_time.week_offset()) ==> after == before
                    &&& after@.start == before@.start
                    &&& after@.duration == before@.duration
                    &&& after@.active ==> before@.active
                    &&& after.spec_description() == before.spec_description()
                    &&& after.spec_intense_duration_sec() == before.spec_intense_duration_sec()
                    &&& after.spec_pause_duration_sec() == before.spec_pause_duration_sec()
                },
    {
        let n = self.alarms.len();
        let mut i: usize = 0;
        while i < n
            invariant
                n == old(self).alarms().len(),
                self.alarms@.len() == n,
                i <= n,
                forall|j: int|
                    0 <= j < i ==> {
                        let before = old(self).alarms()[j];
                        let after = #[trigger] self.alarms@[j];
                        &&& !fires(before@, current_time.week_offset()) ==> after == before
                        &&& after@.start == before@.start
                        &&& after@.duration == before@.duration
                        &&& after@.active ==> before@.active
                        &&& after.spec_description() == before.spec_description()
                        &&& after.spec_intense_duration_sec() == before.spec_intense_duration_sec()
                        &&& after.spec_pause_duration_sec() == before.spec_pause_duration_sec()
                    &&& after.spec_description() == before.spec_description()
                    &&& after.spec_intense_duration_sec() == before.spec_intense_duration_sec()
                    &&& after.spec_pause_duration_sec() == before.spec_pause_duration_sec()
                    },
                forall|j: int| i <= j < n ==> #[trigger] self.alarms@[j] == old(self).alarms()[j],
            decreases n - i,
        {
            self.alarms[i].trigger(*current_time);
            i += 1;
        }
    }
}

} // verus!
