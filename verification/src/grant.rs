//! Grants, their vesting configuration, and the amount vested at a date.

use crate::date::{month_index_end, CalendarDate, MAX_YEAR};
use crate::rational::Rational;
use vstd::prelude::*;

verus! {

/// A share of a whole, `numerator / denominator`, between 0 and 1.
#[derive(Clone, Copy, Debug, PartialEq, Eq, Structural)]
pub struct Fraction {
    pub numerator: u32,
    pub denominator: u32,
}

impl Fraction {
    /// The share is a number, and lies between 0 and 1.
    pub open spec fn is_valid(&self) -> bool {
        0 < self.denominator && self.numerator <= self.denominator
    }
}

/// The step in which a grant vests.
#[derive(Clone, Copy, Debug, PartialEq, Eq, Structural)]
pub enum VestingInterval {
    Monthly,
}

/// How a grant vests over time.
#[derive(Clone, Copy, Debug, PartialEq, Eq, Structural)]
pub struct VestingScheduleConfiguration {
    pub interval: VestingInterval,
    /// The share of the amount that vests at the cliff.
    pub cliff_percentage: Fraction,
    /// The number of periods before anything vests.
    pub cliff: i32,
    /// The number of periods until everything has vested.
    pub length: i32,
}

/// An award of `amount` units from `grant_date` on.
#[derive(Clone, Copy, Debug, PartialEq, Eq, Structural)]
pub struct Grant {
    pub amount: i32,
    pub grant_date: CalendarDate,
    pub vesting_schedule: VestingScheduleConfiguration,
}

/// Why a grant was refused.
#[derive(Clone, Copy, Debug, PartialEq, Eq, Structural)]
pub enum GrantError {
    /// A negative amount or cliff, a cliff beyond the length, a share that is
    /// no number between 0 and 1, a grant date that does not exist, or a
    /// length that runs past the calendar's last month.
    InvalidConfiguration,
    /// The cliff is the length, so nothing is left to vest month by month.
    DegenerateSchedule,
}

/// The parts of a grant fit together, the cliff being at most the length.
pub open spec fn is_well_formed(
    amount: i32,
    grant_date: CalendarDate,
    vesting_schedule: VestingScheduleConfiguration,
) -> bool {
    &&& 0 <= amount
    &&& grant_date.is_valid()
    &&& vesting_schedule.cliff_percentage.is_valid()
    &&& 0 <= vesting_schedule.cliff <= vesting_schedule.length
    &&& grant_date.month_index() + vesting_schedule.length < month_index_end()
}

/// `a * b` is at most `c * d` where `a` is at most `c` and `b` at most `d`.
proof fn lemma_product_bound(a: int, b: int, c: int, d: int)
    requires
        0 <= a <= c,
        0 <= b <= d,
    ensures
        0 <= a * b <= c * d,
{
    assert(0 <= a * b <= c * d) by (nonlinear_arith)
        requires
            0 <= a <= c,
            0 <= b <= d,
    ;
}

impl Grant {
    /// The grant is well formed, and its cliff lies before its length.
    pub open spec fn is_valid(&self) -> bool {
        &&& is_well_formed(self.amount, self.grant_date, self.vesting_schedule)
        &&& self.vesting_schedule.cliff < self.vesting_schedule.length
    }

    /// The number of calendar months from the grant date's month to that of
    /// `date`. The days of the month play no part.
    pub open spec fn months_to(&self, date: CalendarDate) -> int {
        (date.year - self.grant_date.year) * 12 + (date.month - self.grant_date.month)
    }

    /// The number of months between the cliff and the length.
    pub open spec fn months_after_cliff(&self) -> int {
        self.vesting_schedule.length - self.vesting_schedule.cliff
    }

    /// The number of equal parts into which a unit is cut: vested amounts are
    /// counted in parts of `1 / scale()` of a unit.
    pub open spec fn scale(&self) -> int {
        self.vesting_schedule.cliff_percentage.denominator * self.months_after_cliff()
    }

    /// What has vested `months` months after the grant, in parts of
    /// `1 / scale()` of a unit: nothing before the cliff, everything past the
    /// length, and between them the cliff's share plus, for each month past
    /// the cliff, an equal part of the rest.
    pub open spec fn vested_units(&self, months: int) -> int {
        let share = self.vesting_schedule.cliff_percentage;
        if months < self.vesting_schedule.cliff {
            0
        } else if months > self.vesting_schedule.length {
            self.amount * self.scale()
        } else {
            self.amount * (share.numerator * self.months_after_cliff() + (share.denominator
                - share.numerator) * (months - self.vesting_schedule.cliff))
        }
    }

    /// The amount that has vested on `date`: the fraction
    /// `vested_units(months_to(date)) / scale()`.
    pub open spec fn vested_amount(&self, date: CalendarDate) -> Rational {
        Rational {
            numerator: self.vested_units(self.months_to(date)) as u128,
            denominator: self.scale() as u128,
        }
    }

    /// The amount that vests at the cliff: the cliff's share of the amount.
    pub open spec fn cliff_amount(&self) -> Rational {
        Rational {
            numerator: (self.amount * self.vesting_schedule.cliff_percentage.numerator) as u128,
            denominator: self.vesting_schedule.cliff_percentage.denominator as u128,
        }
    }

    /// What has vested `months` months after the grant, in whole units.
    pub open spec fn whole_units_vested(&self, months: int) -> int {
        self.vested_units(months) / self.scale()
    }

    /// A grant of the given parts, or the reason why they make none.
    pub fn new(
        amount: i32,
        grant_date: CalendarDate,
        vesting_schedule: VestingScheduleConfiguration,
    ) -> (made: Result<Grant, GrantError>)
        ensures
            match made {
                Ok(grant) => {
                    &&& grant == (Grant { amount, grant_date, vesting_schedule })
                    &&& grant.is_valid()
                },
                Err(GrantError::DegenerateSchedule) => {
                    &&& is_well_formed(amount, grant_date, vesting_schedule)
                    &&& vesting_schedule.cliff == vesting_schedule.length
                },
                Err(GrantError::InvalidConfiguration) => !is_well_formed(
                    amount,
                    grant_date,
                    vesting_schedule,
                ),
            },
    {
        let share = vesting_schedule.cliff_percentage;
        if amount < 0 || share.denominator == 0 || share.numerator > share.denominator {
            return Err(GrantError::InvalidConfiguration);
        }
        if vesting_schedule.cliff < 0 || vesting_schedule.cliff > vesting_schedule.length {
            return Err(GrantError::InvalidConfiguration);
        }
        if !grant_date.names_a_day() {
            return Err(GrantError::InvalidConfiguration);
        }
        let first_month: i64 = grant_date.year as i64 * 12 + (grant_date.month as i64 - 1);
        let end_month: i64 = (MAX_YEAR as i64 + 1) * 12;
        if first_month + vesting_schedule.length as i64 >= end_month {
            return Err(GrantError::InvalidConfiguration);
        }
        if vesting_schedule.cliff == vesting_schedule.length {
            return Err(GrantError::DegenerateSchedule);
        }
        Ok(Grant { amount, grant_date, vesting_schedule })
    }

    /// The number of calendar months from the grant date's month to that of
    /// `future_date`; negative where that month is an earlier one.
    pub fn months_difference(&self, future_date: CalendarDate) -> (months: i32)
        requires
            self.grant_date.is_valid(),
            future_date.is_valid(),
        ensures
            months == self.months_to(future_date),
    {
        let year_difference: i32 = future_date.year - self.grant_date.year;
        (year_difference * 12) + (future_date.month as i32 - self.grant_date.month as i32)
    }

    /// Whether `future_date` lies in a month before that of the cliff.
    pub fn is_before_cliff(&self, future_date: CalendarDate) -> (before: bool)
        requires
            self.grant_date.is_valid(),
            future_date.is_valid(),
        ensures
            before == (self.months_to(future_date) < self.vesting_schedule.cliff),
    {
        self.months_difference(future_date) < self.vesting_schedule.cliff
    }

    /// The amount that vests when the cliff is reached: the cliff's share of
    /// the whole amount.
    pub fn cliff_vested_amount(&self) -> (vested: Rational)
        requires
            self.is_valid(),
        ensures
            vested == self.cliff_amount(),
            vested.numerator == self.amount * self.vesting_schedule.cliff_percentage.numerator,
            vested.denominator == self.vesting_schedule.cliff_percentage.denominator,
    {
        let share = self.vesting_schedule.cliff_percentage;
        proof {
            lemma_product_bound(
                self.amount as int,
                share.numerator as int,
                i32::MAX as int,
                u32::MAX as int,
            );
        }
        Rational {
            numerator: self.amount as u128 * share.numerator as u128,
            denominator: share.denominator as u128,
        }
    }

    /// The amount that has vested on `future_date`, as an exact fraction with
    /// the denominator `scale()`.
    pub fn calculate_vested_amount(&self, future_date: CalendarDate) -> (vested: Rational)
        requires
            self.is_valid(),
            future_date.is_valid(),
        ensures
            vested == self.vested_amount(future_date),
            vested.numerator == self.vested_units(self.months_to(future_date)),
            vested.denominator == self.scale(),
            vested.is_valid(),
    {
        let share = self.vesting_schedule.cliff_percentage;
        let amount: u128 = self.amount as u128;
        let span: u128 = (self.vesting_schedule.length - self.vesting_schedule.cliff) as u128;
        let part: u128 = share.numerator as u128;
        let whole: u128 = share.denominator as u128;
        proof {
            lemma_product_bound(whole as int, span as int, u32::MAX as int, i32::MAX as int);
            lemma_product_bound(1, 1, whole as int, span as int);
            lemma_product_bound(
                amount as int,
                whole * span,
                i32::MAX as int,
                u32::MAX * i32::MAX,
            );
        }
        let scale: u128 = whole * span;
        match self.vesting_schedule.interval {
            VestingInterval::Monthly => {
                if self.is_before_cliff(future_date) {
                    Rational { numerator: 0, denominator: scale }
                } else if self.months_difference(future_date) > self.vesting_schedule.length {
                    Rational { numerator: amount * scale, denominator: scale }
                } else {
                    let at_cliff = self.cliff_vested_amount();
                    let months_past_cliff: u128 = (self.months_difference(future_date)
                        - self.vesting_schedule.cliff) as u128;
                    proof {
                        lemma_product_bound(part as int, span as int, whole as int, span as int);
                        lemma_product_bound(
                            amount as int,
                            part as int,
                            i32::MAX as int,
                            u32::MAX as int,
                        );
                        lemma_product_bound(
                            amount as int,
                            whole as int,
                            i32::MAX as int,
                            u32::MAX as int,
                        );
                        lemma_product_bound(amount as int, part as int, amount as int, whole as int);
                        lemma_product_bound(
                            amount * part,
                            span as int,
                            i32::MAX * u32::MAX,
                            i32::MAX as int,
                        );
                        lemma_product_bound(
                            amount * whole - amount * part,
                            months_past_cliff as int,
                            i32::MAX * u32::MAX,
                            i32::MAX as int,
                        );
                        assert(amount * (part * span + (whole - part) * months_past_cliff) == (
                        amount * part) * span + (amount * whole - amount * part)
                            * months_past_cliff) by (nonlinear_arith);
                    }
                    if months_past_cliff == 0 {
                        proof {
                            assert((amount * whole - amount * part) * months_past_cliff == 0)
                                by (nonlinear_arith)
                                requires
                                    months_past_cliff == 0,
                            ;
                        }
                        return Rational {
                            numerator: at_cliff.numerator * span,
                            denominator: scale,
                        };
                    }
                    let remaining_after_cliff: u128 = amount * whole - at_cliff.numerator;
                    let vested_after_cliff: u128 = remaining_after_cliff * months_past_cliff;
                    Rational {
                        numerator: at_cliff.numerator * span + vested_after_cliff,
                        denominator: scale,
                    }
                }
            },
        }
    }

    /// What has vested is never negative and never more than the amount.
    pub proof fn lemma_vested_units_bounds(&self, months: int)
        requires
            self.is_valid(),
        ensures
            0 < self.scale() <= u128::MAX,
            0 <= self.vested_units(months) <= self.amount * self.scale() <= u128::MAX,
            0 <= self.whole_units_vested(months) <= self.amount,
    {
        let share = self.vesting_schedule.cliff_percentage;
        let span = self.months_after_cliff();
        let part = share.numerator as int;
        let whole = share.denominator as int;
        let amount = self.amount as int;
        lemma_product_bound(1, 1, whole, span);
        lemma_product_bound(whole, span, u32::MAX as int, i32::MAX as int);
        lemma_product_bound(amount, whole * span, i32::MAX as int, u32::MAX * i32::MAX);
        if self.vesting_schedule.cliff <= months <= self.vesting_schedule.length {
            let past = months - self.vesting_schedule.cliff;
            lemma_product_bound(whole - part, past, whole - part, span);
            lemma_product_bound(0, 0, part, span);
            assert(part * span + (whole - part) * span == whole * span) by (nonlinear_arith);
            lemma_product_bound(
                amount,
                part * span + (whole - part) * past,
                amount,
                whole * span,
            );
        }
        let units = self.vested_units(months);
        let scale = self.scale();
        assert(0 <= units / scale <= amount) by (nonlinear_arith)
            requires
                0 < scale,
                0 <= units <= amount * scale,
        ;
    }
}

} // verus!
