//! The month-by-month schedule of a grant.

use crate::date::{add_months, lemma_months_after_is_valid, monthly_dates, CalendarDate};
use crate::grant::Grant;
use crate::laws::lemma_schedule_ends;
use vstd::prelude::*;

verus! {

/// One checkpoint of a schedule: what has vested, in whole units, on a date.
#[derive(Clone, Copy, Debug, PartialEq, Eq, Structural)]
pub struct VestingPeriod {
    pub date: CalendarDate,
    pub cumulative_vested_amount: i32,
}

/// The checkpoints of a grant, one a month from the grant date to the month
/// in which everything has vested.
#[derive(Debug, PartialEq, Eq)]
pub struct VestingSchedule {
    pub from_date: CalendarDate,
    pub to_date: CalendarDate,
    pub periods: Vec<VestingPeriod>,
}

impl VestingSchedule {
    /// `self` is the schedule of `grant`: it runs from the grant date to the
    /// date `length` months later, and its checkpoint `i`, for each `i` from 0
    /// to `length`, holds the date `i` months after the grant date and what
    /// has vested by then, rounded down to whole units.
    pub open spec fn is_schedule_of(&self, grant: Grant) -> bool {
        &&& self.from_date == grant.grant_date
        &&& self.to_date.is_months_after(grant.grant_date, grant.vesting_schedule.length as int)
        &&& self.periods@.len() == grant.vesting_schedule.length + 1
        &&& forall|i: int|
            0 <= i <= grant.vesting_schedule.length ==> {
                &&& (#[trigger] self.periods@[i]).date.is_months_after(grant.grant_date, i)
                &&& self.periods@[i].cumulative_vested_amount == grant.whole_units_vested(i)
            }
    }
}

impl Grant {
    /// The full schedule of the grant, listing what has vested at each month
    /// from the grant date on.
    pub fn calculate_vesting_schedule(&self) -> (schedule: VestingSchedule)
        requires
            self.is_valid(),
        ensures
            schedule.is_schedule_of(*self),
            schedule.from_date == self.grant_date,
            schedule.to_date.is_months_after(
                self.grant_date,
                self.vesting_schedule.length as int,
            ),
            schedule.periods@.len() == self.vesting_schedule.length + 1,
            self.vesting_schedule.cliff > 0 ==> schedule.periods@[0].cumulative_vested_amount == 0,
            schedule.periods@[self.vesting_schedule.length as int].cumulative_vested_amount
                == self.amount,
    {
        let length: i32 = self.vesting_schedule.length;
        let to_date = add_months(self.grant_date, length);
        let dates = monthly_dates(self.grant_date, length as usize + 1);
        let mut periods: Vec<VestingPeriod> = Vec::new();
        let mut i: usize = 0;
        while i < dates.len()
            invariant
                self.is_valid(),
                length == self.vesting_schedule.length,
                dates@.len() == length + 1,
                forall|k: int|
                    0 <= k <= length ==> (#[trigger] dates@[k]).is_months_after(self.grant_date, k),
                i <= dates@.len(),
                periods@.len() == i,
                forall|k: int|
                    0 <= k < i ==> {
                        &&& (#[trigger] periods@[k]).date == dates@[k]
                        &&& periods@[k].cumulative_vested_amount == self.whole_units_vested(k)
                    },
            decreases dates@.len() - i,
        {
            let date = dates[i];
            proof {
                lemma_months_after_is_valid(date, self.grant_date, i as int);
                self.lemma_vested_units_bounds(i as int);
            }
            let vested = self.calculate_vested_amount(date);
            let whole_units: u128 = vested.floor();
            periods.push(VestingPeriod { date, cumulative_vested_amount: whole_units as i32 });
            i += 1;
        }
        let schedule = VestingSchedule { from_date: self.grant_date, to_date, periods };
        proof {
            lemma_schedule_ends(*self, schedule);
        }
        schedule
    }
}

} // verus!
