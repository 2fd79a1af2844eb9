//! What holds of every valid grant and of its schedule.
//!
//! `Grant::calculate_vested_amount` returns, for a date, the fraction
//! `vested_amount(date)`, which is `vested_units(months_to(date)) / scale()`.
//! The denominator is the same for every date, so each law on amounts is
//! stated of the fractions and of their numerators.

use crate::date::{lemma_months_after_is_unique, CalendarDate};
use crate::grant::Grant;
use crate::rational::Rational;
use crate::schedule::VestingSchedule;
use vstd::arithmetic::div_mod::{lemma_div_is_ordered, lemma_div_multiples_vanish};
use vstd::prelude::*;

verus! {

/// Nothing has vested on a date whose month lies before that of the cliff.
pub proof fn lemma_nothing_vested_before_cliff(grant: Grant, date: CalendarDate)
    requires
        grant.is_valid(),
        grant.months_to(date) < grant.vesting_schedule.cliff,
    ensures
        grant.vested_amount(date).numerator == 0,
        grant.vested_units(grant.months_to(date)) == 0,
        grant.whole_units_vested(grant.months_to(date)) == 0,
{
    grant.lemma_vested_units_bounds(grant.months_to(date));
}

/// Nothing has vested on the grant date of a grant that has a cliff.
pub proof fn lemma_nothing_vested_on_grant_date(grant: Grant)
    requires
        grant.is_valid(),
        grant.vesting_schedule.cliff > 0,
    ensures
        grant.months_to(grant.grant_date) == 0,
        grant.vested_amount(grant.grant_date).numerator == 0,
        grant.vested_units(grant.months_to(grant.grant_date)) == 0,
{
}

/// A later month index never has less vested than an earlier one.
pub proof fn lemma_vested_units_non_decreasing(grant: Grant, earlier: int, later: int)
    requires
        grant.is_valid(),
        earlier <= later,
    ensures
        grant.vested_units(earlier) <= grant.vested_units(later),
        grant.whole_units_vested(earlier) <= grant.whole_units_vested(later),
{
    let config = grant.vesting_schedule;
    grant.lemma_vested_units_bounds(earlier);
    grant.lemma_vested_units_bounds(later);
    if config.cliff <= earlier && later <= config.length {
        let rest = config.cliff_percentage.denominator - config.cliff_percentage.numerator;
        let base = config.cliff_percentage.numerator * grant.months_after_cliff();
        let amount = grant.amount as int;
        assert(amount * (base + rest * (earlier - config.cliff)) <= amount * (base + rest * (later
            - config.cliff))) by (nonlinear_arith)
            requires
                0 <= amount,
                0 <= rest,
                earlier <= later,
        ;
    }
    lemma_div_is_ordered(grant.vested_units(earlier), grant.vested_units(later), grant.scale());
}

/// The vested amount never falls as the date moves on.
pub proof fn lemma_vested_amount_non_decreasing(
    grant: Grant,
    earlier: CalendarDate,
    later: CalendarDate,
)
    requires
        grant.is_valid(),
        earlier.is_valid(),
        later.is_valid(),
        earlier.is_on_or_before(later),
    ensures
        grant.months_to(earlier) <= grant.months_to(later),
        grant.vested_units(grant.months_to(earlier)) <= grant.vested_units(
            grant.months_to(later),
        ),
        grant.vested_amount(earlier).at_most(grant.vested_amount(later)),
{
    let before = grant.vested_units(grant.months_to(earlier));
    let after = grant.vested_units(grant.months_to(later));
    let scale = grant.scale();
    lemma_vested_units_non_decreasing(grant, grant.months_to(earlier), grant.months_to(later));
    grant.lemma_vested_units_bounds(grant.months_to(earlier));
    grant.lemma_vested_units_bounds(grant.months_to(later));
    assert(before * scale <= after * scale) by (nonlinear_arith)
        requires
            before <= after,
            0 < scale,
    ;
}

/// From the month in which the length has passed, the whole amount has
/// vested.
pub proof fn lemma_fully_vested_from_length(grant: Grant, date: CalendarDate)
    requires
        grant.is_valid(),
        grant.months_to(date) >= grant.vesting_schedule.length,
    ensures
        grant.vested_amount(date).same_value(
            (Rational { numerator: grant.amount as u128, denominator: 1 }),
        ),
        grant.vested_units(grant.months_to(date)) == grant.amount * grant.scale(),
        grant.whole_units_vested(grant.months_to(date)) == grant.amount,
{
    let share = grant.vesting_schedule.cliff_percentage;
    let span = grant.months_after_cliff();
    let part = share.numerator as int;
    let whole = share.denominator as int;
    assert(part * span + (whole - part) * span == whole * span) by (nonlinear_arith);
    grant.lemma_vested_units_bounds(grant.months_to(date));
    lemma_div_multiples_vanish(grant.amount as int, grant.scale());
    assert(grant.amount * grant.scale() == grant.scale() * grant.amount) by (nonlinear_arith);
}

/// In the month of the cliff, the cliff's share of the amount has vested:
/// the fraction `vested_units / scale()` and the fraction that
/// `cliff_vested_amount` returns are the same number.
pub proof fn lemma_cliff_share_vested_at_cliff(grant: Grant, date: CalendarDate)
    requires
        grant.is_valid(),
        grant.months_to(date) == grant.vesting_schedule.cliff,
    ensures
        grant.vested_amount(date).same_value(grant.cliff_amount()),
        grant.vested_units(grant.months_to(date))
            * grant.vesting_schedule.cliff_percentage.denominator == (grant.amount
            * grant.vesting_schedule.cliff_percentage.numerator) * grant.scale(),
{
    grant.lemma_vested_units_bounds(grant.months_to(date));
    let share = grant.vesting_schedule.cliff_percentage;
    let span = grant.months_after_cliff();
    let part = share.numerator as int;
    let whole = share.denominator as int;
    let amount = grant.amount as int;
    assert(0 <= amount * part <= i32::MAX * u32::MAX) by (nonlinear_arith)
        requires
            0 <= amount <= i32::MAX,
            0 <= part <= u32::MAX,
    ;
    assert((amount * (part * span + (whole - part) * 0)) * whole == (amount * part) * (whole
        * span)) by (nonlinear_arith);
}

/// A schedule has one checkpoint for each month from 0 to the length. It
/// starts at the grant date and ends `length` months later. Where the grant
/// has a cliff, its first checkpoint has nothing vested; its last has the
/// whole amount.
pub proof fn lemma_schedule_ends(grant: Grant, schedule: VestingSchedule)
    requires
        grant.is_valid(),
        schedule.is_schedule_of(grant),
    ensures
        schedule.periods@.len() == grant.vesting_schedule.length + 1,
        schedule.from_date == grant.grant_date,
        schedule.to_date.is_months_after(grant.grant_date, grant.vesting_schedule.length as int),
        schedule.periods@[0].date == grant.grant_date,
        schedule.periods@[grant.vesting_schedule.length as int].date == schedule.to_date,
        grant.vesting_schedule.cliff > 0 ==> schedule.periods@[0].cumulative_vested_amount == 0,
        schedule.periods@[grant.vesting_schedule.length as int].cumulative_vested_amount
            == grant.amount,
{
    let length = grant.vesting_schedule.length as int;
    let first = schedule.periods@[0].date;
    let last = schedule.periods@[length].date;
    assert(grant.grant_date.is_months_after(grant.grant_date, 0));
    lemma_months_after_is_unique(first, grant.grant_date, grant.grant_date, 0);
    lemma_months_after_is_unique(last, schedule.to_date, grant.grant_date, length);
    grant.lemma_vested_units_bounds(0);
    assert(grant.months_to(last) == length);
    lemma_fully_vested_from_length(grant, last);
}

/// Along a schedule the dates move on, a month at a time, and the amounts
/// never fall.
pub proof fn lemma_schedule_is_ordered(grant: Grant, schedule: VestingSchedule, i: int, j: int)
    requires
        grant.is_valid(),
        schedule.is_schedule_of(grant),
        0 <= i < j <= grant.vesting_schedule.length,
    ensures
        schedule.periods@[i].date.month_index() + (j - i) == schedule.periods@[j].date.month_index(),
        schedule.periods@[i].date.is_on_or_before(schedule.periods@[j].date),
        schedule.periods@[i].date != schedule.periods@[j].date,
        schedule.periods@[i].cumulative_vested_amount
            <= schedule.periods@[j].cumulative_vested_amount,
{
    lemma_vested_units_non_decreasing(grant, i, j);
}

} // verus!
