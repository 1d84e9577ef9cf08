//! The Gregorian calendar date of a day counted from 1 January 1970.
use vstd::prelude::*;
use vstd::arithmetic::div_mod::{
    lemma_fundamental_div_mod, lemma_fundamental_div_mod_converse_div, lemma_fundamental_div_mod_converse_mod,
    lemma_mod_bound,
};

use crate::widget::calendar::{leap_year, month_days};

verus! {

/// The number of days of year `y`.
pub open spec fn year_len(y: int) -> int {
    if leap_year(y) { 366 } else { 365 }
}

/// The year and the day within it (counted from 0) that lie `rem` days
/// after the first day of year `y`.
pub open spec fn civil_year(y: int, rem: nat) -> (int, nat)
    decreases rem,
{
    if rem < year_len(y) {
        (y, rem)
    } else {
        civil_year(y + 1, (rem - year_len(y)) as nat)
    }
}

/// The month and the day within it (counted from 0) of day `rem` of year
/// `y`, counting months from `m`.
pub open spec fn civil_month(y: int, m: int, rem: nat) -> (int, nat)
    decreases 12 - m,
{
    if 1 <= m < 12 && rem >= month_days(y, m) {
        civil_month(y, m + 1, (rem - month_days(y, m)) as nat)
    } else {
        (m, rem)
    }
}

/// The date (year, month from 1, day of the month from 1) of the day
/// `days` days after 1 January 1970.
pub open spec fn civil_date(days: nat) -> (int, int, int) {
    let (y, r) = civil_year(1970, days);
    let (m, d) = civil_month(y, 1, r);
    (y, m, d as int + 1)
}

/// The number of leap years from year 1 to year `n`.
pub open spec fn leaps_upto(n: int) -> int {
    n / 4 - n / 100 + n / 400
}

/// The number of days from 1 January 1970 to the first day of year `y`.
pub open spec fn days_before_year(y: int) -> int {
    365 * (y - 1970) + leaps_upto(y - 1) - leaps_upto(1969)
}

/// Stepping a number down by one lowers its quotient by `k` exactly when it
/// is a multiple of `k`.
proof fn lemma_div_step(n: int, k: int)
    requires
        n >= 1,
        k > 0,
    ensures
        n / k - (n - 1) / k == (if n % k == 0 { 1int } else { 0int }),
{
    lemma_fundamental_div_mod(n, k);
    lemma_mod_bound(n, k);
    let q = n / k;
    let r = n % k;
    assert(n == q * k + r) by (nonlinear_arith)
        requires n == k * (n / k) + n % k, q == n / k, r == n % k;
    if r == 0 {
        assert(n - 1 == (q - 1) * k + (k - 1)) by (nonlinear_arith)
            requires n == q * k + r, r == 0;
        lemma_fundamental_div_mod_converse_div(n - 1, k, q - 1, k - 1);
    } else {
        assert(n - 1 == q * k + (r - 1));
        lemma_fundamental_div_mod_converse_div(n - 1, k, q, r - 1);
    }
}

/// A multiple of `a * b` is a multiple of `b`.
proof fn lemma_multiple(y: int, a: int, b: int)
    requires
        a > 0,
        b > 0,
        y % (a * b) == 0,
    ensures
        y % b == 0,
{
    assert(a * b > 0) by (nonlinear_arith)
        requires a > 0, b > 0;
    lemma_fundamental_div_mod(y, a * b);
    let q = y / (a * b);
    assert(y == (q * a) * b + 0) by (nonlinear_arith)
        requires y == (a * b) * (y / (a * b)) + y % (a * b), y % (a * b) == 0, q == y / (a * b);
    lemma_fundamental_div_mod_converse_mod(y, b, q * a, 0);
}

/// The count of leap years grows by one exactly at a leap year.
proof fn lemma_leap_count_step(y: int)
    requires
        y >= 1,
    ensures
        leaps_upto(y) - leaps_upto(y - 1) == (if leap_year(y) { 1int } else { 0int }),
{
    lemma_div_step(y, 4);
    lemma_div_step(y, 100);
    lemma_div_step(y, 400);
    if y % 400 == 0 {
        lemma_multiple(y, 4, 100);
    }
    if y % 100 == 0 {
        lemma_multiple(y, 25, 4);
    }
}

/// The first day of the next year comes one year's length later.
pub proof fn lemma_year_step(y: int)
    requires
        y >= 1970,
    ensures
        days_before_year(y + 1) == days_before_year(y) + year_len(y),
{
    lemma_leap_count_step(y);
}

/// Every year after 1970 adds at least a day.
proof fn lemma_days_before_year_grows(y: int)
    requires
        y >= 1970,
    ensures
        days_before_year(y) >= y - 1970,
    decreases y - 1970,
{
    if y > 1970 {
        lemma_days_before_year_grows(y - 1);
        lemma_year_step(y - 1);
    }
}

/// Walking the years from 1970 passes through the first day of every
/// later year that the walk reaches.
proof fn lemma_civil_year_from(days: nat, y: int)
    requires
        y >= 1970,
        days_before_year(y) <= days,
    ensures
        civil_year(1970, days) == civil_year(y, (days - days_before_year(y)) as nat),
    decreases y - 1970,
{
    if y > 1970 {
        lemma_year_step(y - 1);
        lemma_civil_year_from(days, y - 1);
    }
}

/// The Gregorian leap-year rule.
fn is_leap(y: u64) -> (r: bool)
    ensures
        r == leap_year(y as int),
{
    (y % 4 == 0 && y % 100 != 0) || y % 400 == 0
}

/// The number of days of month `m` of year `y`.
fn month_len(y: u64, m: u64) -> (r: u64)
    ensures
        r == month_days(y as int, m as int),
{
    if m == 1 || m == 3 || m == 5 || m == 7 || m == 8 || m == 10 || m == 12 {
        31
    } else if m == 4 || m == 6 || m == 9 || m == 11 {
        30
    } else if m == 2 {
        if is_leap(y) { 29 } else { 28 }
    } else {
        30
    }
}

/// The number of days from 1 January 1970 to the first day of year `y`.
fn days_before(y: u64) -> (r: i128)
    requires
        1970 <= y <= 0x2_0000_0000_0000,
    ensures
        r == days_before_year(y as int),
{
    let a: i128 = (y - 1) as i128;
    let l: i128 = a / 4 - a / 100 + a / 400;
    365 * ((y - 1970) as i128) + l - (1969i128 / 4 - 1969i128 / 100 + 1969i128 / 400)
}

/// The date (year, month, day of the month) of the day `days` days after
/// 1 January 1970.
pub fn civil_from_days(days: u64) -> (r: (u64, u64, u64))
    requires
        days < 0x1_0000_0000_0000,
    ensures
        (r.0 as int, r.1 as int, r.2 as int) == civil_date(days as nat),
{
    let est: u128 = (days as u128) * 400 / 146097;
    assert(est <= days) by (nonlinear_arith)
        requires est == (days as int) * 400 / 146097, days >= 0;
    let mut y: u64 = 1970 + (est as u64);
    assert(days_before_year(1970) == 0);
    while days_before(y) > days as i128
        invariant
            1970 <= y <= 1970 + days,
            days < 0x1_0000_0000_0000,
        decreases y,
    {
        y = y - 1;
    }
    proof {
        lemma_days_before_year_grows(y as int);
    }
    while y < 0x2_0000_0000_0000 && days_before(y + 1) <= days as i128
        invariant
            1970 <= y,
            days_before_year(y as int) <= days,
            days < 0x1_0000_0000_0000,
        decreases days - days_before_year(y as int),
    {
        proof {
            lemma_year_step(y as int);
        }
        y = y + 1;
    }
    proof {
        lemma_days_before_year_grows(y as int);
        lemma_year_step(y as int);
        lemma_civil_year_from(days as nat, y as int);
    }
    assert(y < 0x2_0000_0000_0000);
    let mut rem: u64 = (days as i128 - days_before(y)) as u64;
    assert(civil_year(1970, days as nat) == (y as int, rem as nat));
    assert(rem < 367);
    let ghost r0 = rem as nat;
    let mut m: u64 = 1;
    while m < 12 && rem >= month_len(y, m)
        invariant
            1 <= m <= 12,
            rem < 367,
            civil_month(y as int, 1, r0) == civil_month(y as int, m as int, rem as nat),
        decreases 12 - m,
    {
        rem = rem - month_len(y, m);
        m = m + 1;
    }
    (y, m, rem + 1)
}

/// The number of days of months `m` to December of year `y`.
pub open spec fn days_from_month(y: int, m: int) -> int
    decreases 13 - m,
{
    if 1 <= m <= 12 { month_days(y, m) + days_from_month(y, m + 1) } else { 0 }
}

/// The months of a year make up the year.
proof fn lemma_months_fill_year(y: int)
    ensures
        days_from_month(y, 1) == year_len(y),
{
    reveal_with_fuel(days_from_month, 13);
}

/// Months `m` to December have at least one day when `m` is a month.
proof fn lemma_days_from_month_positive(y: int, m: int)
    ensures
        days_from_month(y, m) >= 0,
        1 <= m <= 12 ==> days_from_month(y, m) >= 28,
    decreases 13 - m,
{
    if 1 <= m <= 12 {
        lemma_days_from_month_positive(y, m + 1);
    }
}

/// Within the months `m0` to December, a day lands in a month that has it
/// (the last of them exactly on the last day of December), and the next
/// day is the next day of that month or the first of the month after.
proof fn lemma_civil_month_step(y: int, m0: int, rem: nat)
    requires
        1 <= m0 <= 12,
        rem < days_from_month(y, m0),
    ensures
        ({
            let (m, d) = civil_month(y, m0, rem);
            &&& m0 <= m <= 12
            &&& d < month_days(y, m)
            &&& (rem + 1 == days_from_month(y, m0) <==> (m == 12 && d + 1 == month_days(y, 12)))
            &&& rem + 1 < days_from_month(y, m0) ==> civil_month(y, m0, rem + 1)
                == (if d + 1 < month_days(y, m) { (m, (d + 1) as nat) } else { (m + 1, 0nat) })
        }),
    decreases 12 - m0,
{
    reveal_with_fuel(days_from_month, 2);
    lemma_days_from_month_positive(y, m0 + 1);
    if m0 < 12 {
        if rem >= month_days(y, m0) {
            lemma_civil_month_step(y, m0 + 1, (rem - month_days(y, m0)) as nat);
            assert(((rem + 1) - month_days(y, m0)) as nat == ((rem - month_days(y, m0)) as nat) + 1);
        } else if rem + 1 == month_days(y, m0) {
            assert(civil_month(y, m0 + 1, 0) == (m0 + 1, 0nat));
        }
    }
}

/// Walking the years from `y0`, a day lands in a year that has it, and
/// the next day is the next day of that year or the first of the next.
proof fn lemma_civil_year_step(y0: int, rem: nat)
    ensures
        ({
            let (y, r) = civil_year(y0, rem);
            &&& r < year_len(y)
            &&& civil_year(y0, rem + 1) == (if r + 1 < year_len(y) { (y, (r + 1) as nat) } else { (y + 1, 0nat) })
        }),
    decreases rem,
{
    if rem >= year_len(y0) {
        lemma_civil_year_step(y0 + 1, (rem - year_len(y0)) as nat);
        assert(((rem + 1) - year_len(y0)) as nat == ((rem - year_len(y0)) as nat) + 1);
    } else if rem + 1 == year_len(y0) {
        assert(civil_year(y0 + 1, 0) == (y0 + 1, 0nat));
    }
}

/// Day 0 is 1 January 1970; every day has a real date (a month from 1 to
/// 12, a day from 1 to that month's length); and the next day is the next
/// day of the month, else the first of the next month, else 1 January of
/// the next year.
pub proof fn lemma_civil_date_steps(n: nat)
    ensures
        civil_date(0) == (1970int, 1int, 1int),
        ({
            let (y, m, d) = civil_date(n);
            &&& 1 <= m <= 12
            &&& 1 <= d <= month_days(y, m)
            &&& civil_date(n + 1) == (if d < month_days(y, m) {
                (y, m, d + 1)
            } else if m < 12 {
                (y, m + 1, 1int)
            } else {
                (y + 1, 1int, 1int)
            })
        }),
{
    lemma_months_fill_year(1970);
    lemma_civil_month_step(1970, 1, 0);
    let (y, r) = civil_year(1970, n);
    lemma_civil_year_step(1970, n);
    lemma_months_fill_year(y);
    lemma_civil_month_step(y, 1, r);
    if r + 1 >= year_len(y) {
        lemma_months_fill_year(y + 1);
        lemma_civil_month_step(y + 1, 1, 0);
    }
}

/// Full month names, by month number from 1.
pub open spec fn month_name(m: int) -> Seq<char> {
    if m == 1 { "January"@ }
    else if m == 2 { "February"@ }
    else if m == 3 { "March"@ }
    else if m == 4 { "April"@ }
    else if m == 5 { "May"@ }
    else if m == 6 { "June"@ }
    else if m == 7 { "July"@ }
    else if m == 8 { "August"@ }
    else if m == 9 { "September"@ }
    else if m == 10 { "October"@ }
    else if m == 11 { "November"@ }
    else { "December"@ }
}

/// Three-letter month names, by month number from 1.
pub open spec fn month_abbrev(m: int) -> Seq<char> {
    if m == 1 { "Jan"@ }
    else if m == 2 { "Feb"@ }
    else if m == 3 { "Mar"@ }
    else if m == 4 { "Apr"@ }
    else if m == 5 { "May"@ }
    else if m == 6 { "Jun"@ }
    else if m == 7 { "Jul"@ }
    else if m == 8 { "Aug"@ }
    else if m == 9 { "Sep"@ }
    else if m == 10 { "Oct"@ }
    else if m == 11 { "Nov"@ }
    else { "Dec"@ }
}

/// Day names by the number of days since 1 January 1970 (a Thursday)
/// modulo seven.
pub open spec fn weekday_name(i: int) -> Seq<char> {
    if i == 0 { "Thursday"@ }
    else if i == 1 { "Friday"@ }
    else if i == 2 { "Saturday"@ }
    else if i == 3 { "Sunday"@ }
    else if i == 4 { "Monday"@ }
    else if i == 5 { "Tuesday"@ }
    else { "Wednesday"@ }
}

/// The full name of month `m`.
pub fn month_name_str(m: u64) -> (r: &'static str)
    ensures
        r@ == month_name(m as int),
{
    if m == 1 { "January" }
    else if m == 2 { "February" }
    else if m == 3 { "March" }
    else if m == 4 { "April" }
    else if m == 5 { "May" }
    else if m == 6 { "June" }
    else if m == 7 { "July" }
    else if m == 8 { "August" }
    else if m == 9 { "September" }
    else if m == 10 { "October" }
    else if m == 11 { "November" }
    else { "December" }
}

/// The three-letter name of month `m`.
pub fn month_abbrev_str(m: u64) -> (r: &'static str)
    ensures
        r@ == month_abbrev(m as int),
{
    if m == 1 { "Jan" }
    else if m == 2 { "Feb" }
    else if m == 3 { "Mar" }
    else if m == 4 { "Apr" }
    else if m == 5 { "May" }
    else if m == 6 { "Jun" }
    else if m == 7 { "Jul" }
    else if m == 8 { "Aug" }
    else if m == 9 { "Sep" }
    else if m == 10 { "Oct" }
    else if m == 11 { "Nov" }
    else { "Dec" }
}

/// The name of the day `i` days (modulo seven) after a Thursday.
pub fn weekday_name_str(i: u64) -> (r: &'static str)
    ensures
        r@ == weekday_name(i as int),
{
    if i == 0 { "Thursday" }
    else if i == 1 { "Friday" }
    else if i == 2 { "Saturday" }
    else if i == 3 { "Sunday" }
    else if i == 4 { "Monday" }
    else if i == 5 { "Tuesday" }
    else { "Wednesday" }
}

} // verus!
