//! The proleptic Gregorian calendar counted day by day, and the proof that the
//! days-from-civil formula used to read stamps agrees with that count.
use vstd::prelude::*;

use crate::timestamp::{days_from_civil, iso_epoch_seconds, stamp_field};

verus! {

pub open spec fn is_leap_year(y: int) -> bool {
    (y % 4 == 0 && y % 100 != 0) || y % 400 == 0
}

pub open spec fn days_in_year(y: int) -> int {
    if is_leap_year(y) {
        366
    } else {
        365
    }
}

pub open spec fn days_in_month(y: int, m: int) -> int {
    if m == 2 {
        if is_leap_year(y) {
            29
        } else {
            28
        }
    } else if m == 4 || m == 6 || m == 9 || m == 11 {
        30
    } else {
        31
    }
}

/// `y-m-d` names a day of the calendar.
pub open spec fn is_calendar_date(y: int, m: int, d: int) -> bool {
    1 <= m <= 12 && 1 <= d <= days_in_month(y, m)
}

/// Days in the months of year `y` before month `m`.
pub open spec fn days_before_month(y: int, m: int) -> int
    decreases m,
{
    if m <= 1 {
        0
    } else {
        days_before_month(y, m - 1) + days_in_month(y, m - 1)
    }
}

/// Days from 1970-01-01 to the first of January of year `y` (negative before 1970).
pub open spec fn days_before_year(y: int) -> int
    decreases (if y >= 1970 {
        y - 1970
    } else {
        1970 - y
    }),
{
    if y == 1970 {
        0
    } else if y > 1970 {
        days_before_year(y - 1) + days_in_year(y - 1)
    } else {
        days_before_year(y + 1) - days_in_year(y)
    }
}

/// Days from 1970-01-01 to `y-m-d`, counted through the calendar.
pub open spec fn calendar_day_number(y: int, m: int, d: int) -> int {
    days_before_year(y) + days_before_month(y, m) + d - 1
}

/// Seconds from 1970-01-01T00:00:00 to the given date and time of day.
pub open spec fn calendar_seconds(y: int, mo: int, d: int, h: int, mi: int, s: int) -> int {
    calendar_day_number(y, mo, d) * 86400 + h * 3600 + mi * 60 + s
}

/// The formula's count of days up to the first of March of year `yy + 1`
/// (its years run from March to February).
spec fn march_days(yy: int) -> int {
    let era = yy / 400;
    let yoe = yy - era * 400;
    era * 146097 + yoe * 365 + yoe / 4 - yoe / 100 - 719468
}

spec fn day_of_march_year(m: int) -> int {
    let mp = if m > 2 {
        m - 3
    } else {
        m + 9
    };
    (153 * mp + 2) / 5
}

proof fn lemma_formula_splits(y: int, m: int, d: int)
    ensures
        days_from_civil(y, m, d) == march_days(if m <= 2 {
            y - 1
        } else {
            y
        }) + day_of_march_year(m) + d - 1,
{
}

/// A March-based year `yy - 1` (March of `yy - 1` to February of `yy`) has as many
/// days as the calendar year `yy`.
proof fn lemma_march_year_length(yy: int)
    ensures
        march_days(yy) - march_days(yy - 1) == days_in_year(yy),
{
    let e = yy / 400;
    let r = yy % 400;
    assert(yy == e * 400 + r && 0 <= r < 400) by {
        vstd::arithmetic::div_mod::lemma_fundamental_div_mod(yy, 400);
    }
    assert(yy - e * 400 == r);
    if r > 0 {
        assert((yy - 1) / 400 == e) by {
            vstd::arithmetic::div_mod::lemma_fundamental_div_mod_converse(yy - 1, 400, e, r - 1);
        }
        assert(yy % 4 == r % 4) by {
            vstd::arithmetic::div_mod::lemma_fundamental_div_mod_converse(yy, 4, e * 100 + r / 4, r % 4);
        }
        assert(yy % 100 == r % 100) by {
            vstd::arithmetic::div_mod::lemma_fundamental_div_mod_converse(yy, 100, e * 4 + r / 100, r % 100);
        }
        assert(yy % 400 != 0);
    } else {
        assert((yy - 1) / 400 == e - 1) by {
            vstd::arithmetic::div_mod::lemma_fundamental_div_mod_converse(yy - 1, 400, e - 1, 399);
        }
        assert(yy % 400 == 0);
    }
}

/// The day count of `days_before_month`, month by month.
proof fn lemma_days_before_month_values(y: int, m: int)
    requires
        1 <= m <= 12,
    ensures
        m <= 2 ==> days_before_month(y, m) == day_of_march_year(m) - 306,
        m > 2 ==> days_before_month(y, m) == days_in_year(y) - 306 + day_of_march_year(m),
{
    reveal_with_fuel(days_before_month, 12);
}

proof fn lemma_formula_within_year(y: int, m: int, d: int)
    requires
        1 <= m <= 12,
    ensures
        days_from_civil(y, m, d) == days_from_civil(y, 1, 1) + days_before_month(y, m) + d - 1,
{
    lemma_formula_splits(y, m, d);
    lemma_formula_splits(y, 1, 1);
    lemma_days_before_month_values(y, m);
    lemma_march_year_length(y);
}

proof fn lemma_formula_new_year(y: int)
    ensures
        days_from_civil(y, 1, 1) == days_before_year(y),
    decreases (if y >= 1970 {
        y - 1970
    } else {
        1970 - y
    }),
{
    lemma_formula_splits(y, 1, 1);
    if y == 1970 {
        assert(march_days(1969) == -306);
    } else if y > 1970 {
        lemma_formula_new_year(y - 1);
        lemma_formula_splits(y - 1, 1, 1);
        lemma_march_year_length(y - 1);
    } else {
        lemma_formula_new_year(y + 1);
        lemma_formula_splits(y + 1, 1, 1);
        lemma_march_year_length(y);
    }
}

/// For every date of the calendar, the days-from-civil formula gives the number of
/// days since 1970-01-01 counted month by month and year by year.
pub proof fn lemma_days_from_civil_counts_days(y: int, m: int, d: int)
    requires
        is_calendar_date(y, m, d),
    ensures
        days_from_civil(y, m, d) == calendar_day_number(y, m, d),
{
    lemma_formula_within_year(y, m, d);
    lemma_formula_new_year(y);
}

/// A stamp whose date is a day of the calendar reads as the number of seconds from
/// 1970-01-01T00:00:00 UTC to that date and time of day.
pub proof fn lemma_stamp_is_seconds_since_epoch(b: Seq<u8>, y: int, mo: int, d: int, h: int, mi: int, s: int)
    requires
        b.len() >= 19,
        stamp_field(b, 0, 4) == Some(y),
        stamp_field(b, 5, 7) == Some(mo),
        stamp_field(b, 8, 10) == Some(d),
        stamp_field(b, 11, 13) == Some(h),
        stamp_field(b, 14, 16) == Some(mi),
        stamp_field(b, 17, 19) == Some(s),
        is_calendar_date(y, mo, d),
    ensures
        iso_epoch_seconds(b) == Some(calendar_seconds(y, mo, d, h, mi, s)),
{
    lemma_days_from_civil_counts_days(y, mo, d);
}

/// Consecutive days of the calendar read as consecutive day numbers: the day after
/// `y-m-d` is one more, across the end of a month and of a year too.
pub proof fn lemma_next_day_is_one_more(y: int, m: int, d: int)
    requires
        is_calendar_date(y, m, d),
    ensures
        d < days_in_month(y, m) ==> days_from_civil(y, m, d + 1) == days_from_civil(y, m, d) + 1,
        d == days_in_month(y, m) && m < 12 ==> days_from_civil(y, m + 1, 1) == days_from_civil(
            y,
            m,
            d,
        ) + 1,
        d == days_in_month(y, m) && m == 12 ==> days_from_civil(y + 1, 1, 1) == days_from_civil(
            y,
            m,
            d,
        ) + 1,
{
    lemma_days_from_civil_counts_days(y, m, d);
    if d < days_in_month(y, m) {
        lemma_days_from_civil_counts_days(y, m, d + 1);
    } else if m < 12 {
        lemma_days_from_civil_counts_days(y, m + 1, 1);
    } else {
        lemma_days_from_civil_counts_days(y + 1, 1, 1);
        reveal_with_fuel(days_before_month, 12);
    }
}

/// The reading of a stamp depends on its first 19 bytes only: the fraction of a
/// second and the zone letter after them are not looked at.
pub proof fn lemma_stamp_ignores_tail(b: Seq<u8>)
    requires
        b.len() >= 19,
    ensures
        iso_epoch_seconds(b) == iso_epoch_seconds(b.subrange(0, 19)),
{
    let p = b.subrange(0, 19);
    assert(b.subrange(0, 4) =~= p.subrange(0, 4));
    assert(b.subrange(5, 7) =~= p.subrange(5, 7));
    assert(b.subrange(8, 10) =~= p.subrange(8, 10));
    assert(b.subrange(11, 13) =~= p.subrange(11, 13));
    assert(b.subrange(14, 16) =~= p.subrange(14, 16));
    assert(b.subrange(17, 19) =~= p.subrange(17, 19));
}

} // verus!
