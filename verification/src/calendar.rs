use chrono::Datelike;
use vstd::prelude::*;

verus! {

/// Smallest year that a calendar date may carry (the range of chrono's `NaiveDate`).
pub const MIN_YEAR: i32 = -262143;

/// Largest year that a calendar date may carry (the range of chrono's `NaiveDate`).
pub const MAX_YEAR: i32 = 262142;

/// A day of the proleptic Gregorian calendar, held as plain numbers.
#[derive(Clone, Copy, PartialEq, Eq, Structural, Debug)]
pub struct CivilDate {
    pub year: i32,
    pub month: u32,
    pub day: u32,
}

/// Gregorian leap-year rule, extended to all years.
pub open spec fn is_leap_year(year: int) -> bool {
    (year % 4 == 0 && year % 100 != 0) || year % 400 == 0
}

pub open spec fn days_in_month(year: int, month: int) -> int {
    if month == 2 {
        if is_leap_year(year) { 29 } else { 28 }
    } else if month == 4 || month == 6 || month == 9 || month == 11 {
        30
    } else {
        31
    }
}

/// Integer division rounding toward zero, as Rust's `/` does on signed integers.
pub open spec fn div_toward_zero(a: int, b: int) -> int
    recommends
        b > 0,
{
    if a >= 0 {
        a / b
    } else {
        -((-a) / b)
    }
}

/// The Julian day number of a Gregorian date (Fliegel and Van Flandern),
/// with every quotient rounded toward zero.
pub open spec fn julian_day_number(year: int, month: int, day: int) -> int {
    let a = div_toward_zero(month - 14, 12);
    let b = 1461 * (year + 4800 + a);
    let c = 367 * (month - 2 - 12 * a);
    let e = div_toward_zero(year + 4900 + a, 100);
    div_toward_zero(b, 4) + div_toward_zero(c, 12) - div_toward_zero(3 * e, 4) + day - 32075
}

impl CivilDate {
    /// The date exists in the Gregorian calendar and lies within the supported years.
    pub open spec fn is_valid(self) -> bool {
        &&& MIN_YEAR <= self.year <= MAX_YEAR
        &&& 1 <= self.month <= 12
        &&& 1 <= self.day <= days_in_month(self.year as int, self.month as int)
    }

    /// Tells whether the date exists in the Gregorian calendar and lies within the supported years.
    pub fn is_valid_date(&self) -> (valid: bool)
        ensures
            valid == self.is_valid(),
    {
        if self.year < MIN_YEAR || self.year > MAX_YEAR || self.month < 1 || self.month > 12
            || self.day < 1 {
            return false;
        }
        let limit: u32 = if self.month == 2 {
            if is_leap(self.year) { 29 } else { 28 }
        } else if self.month == 4 || self.month == 6 || self.month == 9 || self.month == 11 {
            30
        } else {
            31
        };
        self.day <= limit
    }
}

fn is_leap(year: i32) -> (leap: bool)
    requires
        MIN_YEAR <= year <= MAX_YEAR,
    ensures
        leap == is_leap_year(year as int),
{
    let shifted: i32 = year + 400000;
    proof {
        lemma_mod_shift(year as int, 4);
        lemma_mod_shift(year as int, 100);
        lemma_mod_shift(year as int, 400);
    }
    (shifted % 4 == 0 && shifted % 100 != 0) || shifted % 400 == 0
}

proof fn lemma_mod_shift(year: int, m: int)
    requires
        m == 4 || m == 100 || m == 400,
    ensures
        (year + 400000) % m == year % m,
{
    assert(400000int == m * (400000int / m)) by (nonlinear_arith)
        requires
            m == 4 || m == 100 || m == 400,
    ;
    vstd::arithmetic::div_mod::lemma_mod_multiples_vanish(400000int / m, year, m);
}

/// Rust's signed `/` by a positive divisor, stated as rounding toward zero.
fn quotient_toward_zero(a: i32, b: i32) -> (q: i32)
    requires
        b >= 2,
    ensures
        q == div_toward_zero(a as int, b as int),
        a >= 0 ==> 0 <= q <= a,
        a < 0 ==> a <= q <= 0,
{
    proof {
        vstd::arithmetic::div_mod::lemma_div_basics_5(a as int, b as int);
        vstd::arithmetic::div_mod::lemma_div_basics_5(-(a as int), b as int);
        if a < 0 {
            vstd::arithmetic::div_mod::lemma_div_is_ordered_by_denominator(-(a as int), 2, b as int);
        }
    }
    if a >= 0 {
        ((a as u32) / (b as u32)) as i32
    } else {
        let magnitude: u32 = (-(a as i64)) as u32;
        let q: u32 = magnitude / (b as u32);
        -(q as i32)
    }
}

/// The Julian day number of a date: 2_451_545 for 2000-01-01.
pub fn julian_day(date: CivilDate) -> (jdn: i32)
    requires
        date.is_valid(),
    ensures
        jdn == julian_day_number(date.year as int, date.month as int, date.day as int),
{
    let day = date.day as i32;
    let month = date.month as i32;
    let year = date.year;

    let a = quotient_toward_zero(month - 14, 12);
    assert(-1 <= a <= 0);
    let b = 1461 * (year + 4800 + a);
    let c = 367 * (month - 2 - 12 * a);
    let e = quotient_toward_zero(year + 4900 + a, 100);
    quotient_toward_zero(b, 4) + quotient_toward_zero(c, 12) - quotient_toward_zero(3 * e, 4) + day - 32075
}

/// The day after `date` in the Gregorian calendar.
pub open spec fn next_date(date: CivilDate) -> CivilDate {
    if (date.day as int) < days_in_month(date.year as int, date.month as int) {
        CivilDate { year: date.year, month: date.month, day: (date.day + 1) as u32 }
    } else if date.month < 12 {
        CivilDate { year: date.year, month: (date.month + 1) as u32, day: 1 }
    } else {
        CivilDate { year: (date.year + 1) as i32, month: 1, day: 1 }
    }
}

/// From March 4800 BCE (astronomical year -4800) on, the Julian day number
/// counts days: the day after a date has the next number. Earlier, the
/// quotients of the formula round toward zero instead of down and the count
/// breaks (for example from 4801 BCE-02-29, year -4800, to March 1).
pub proof fn lemma_julian_day_counts_days(date: CivilDate)
    requires
        date.is_valid(),
        date.year > -4800 || (date.year == -4800 && date.month >= 3),
        !(date.year == MAX_YEAR && date.month == 12 && date.day == 31),
    ensures
        next_date(date).is_valid(),
        julian_day_number(next_date(date).year as int, next_date(date).month as int, next_date(date).day as int)
            == julian_day_number(date.year as int, date.month as int, date.day as int) + 1,
{
    let y = date.year as int;
    let m = date.month as int;
    let d = date.day as int;
    if d < days_in_month(y, m) {
    } else if m < 12 {
        if m == 2 {
            let big_y = y + 4799;
            assert((1461 * (big_y + 1)) / 4 - (1461 * big_y) / 4 == 365 + (if (y + 4800) % 4 == 0 { 1int } else { 0 }));
            assert((y + 4800) % 4 == y % 4);
            let z = y + 4899;
            assert(z >= 0);
            if y % 100 == 0 {
                assert((z + 1) / 100 == z / 100 + 1);
                assert((3 * ((z + 1) / 100)) / 4 - (3 * (z / 100)) / 4 == (if y % 400 == 0 { 0int } else { 1 }));
            } else {
                assert((z + 1) / 100 == z / 100);
            }
        }
    } else {
    }
}

/// The number of days from 1970-01-01 to `date` (negative before it), counted
/// in the proleptic Gregorian calendar with quotients rounded down.
#[verifier::opaque]
pub open spec fn day_number(date: CivilDate) -> int {
    let y = if date.month <= 2 { date.year - 1 } else { date.year as int };
    let era = y / 400;
    let yoe = y - era * 400;
    let mp = if date.month > 2 { date.month - 3 } else { date.month + 9 };
    let doy = (153 * mp + 2) / 5 + date.day - 1;
    let doe = yoe * 365 + yoe / 4 - yoe / 100 + doy;
    era * 146097 + doe - 719468
}

/// The date whose day number (days from 1970-01-01) is `n`.
#[verifier::opaque]
pub open spec fn civil_from_days(n: int) -> CivilDate {
    let z = n + 719468;
    let era = z / 146097;
    let doe = z - era * 146097;
    let yoe = (doe - doe / 1460 + doe / 36524 - doe / 146096) / 365;
    let y = yoe + era * 400;
    let doy = doe - (365 * yoe + yoe / 4 - yoe / 100);
    let mp = (5 * doy + 2) / 153;
    let d = doy - (153 * mp + 2) / 5 + 1;
    let m = if mp < 10 { mp + 3 } else { mp - 9 };
    CivilDate { year: (if m <= 2 { y + 1 } else { y }) as i32, month: m as u32, day: d as u32 }
}

/// The first date chrono's `NaiveDate` can hold.
pub open spec fn first_date() -> CivilDate {
    CivilDate { year: MIN_YEAR, month: 1, day: 1 }
}

/// The last date chrono's `NaiveDate` can hold.
pub open spec fn last_date() -> CivilDate {
    CivilDate { year: MAX_YEAR, month: 12, day: 31 }
}

/// Day `n` (counted from 1970-01-01) lies within chrono's dates.
pub open spec fn in_date_range(n: int) -> bool {
    day_number(first_date()) <= n <= day_number(last_date())
}

/// `civil_from_days` undoes `day_number`'s count: the date it gives for day `n`
/// has number `n`.
pub proof fn lemma_day_number_of_civil_from_days(n: int)
    requires
        in_date_range(n),
    ensures
        day_number(civil_from_days(n)) == n,
{
    reveal(day_number);
    reveal(civil_from_days);
    let z = n + 719468;
    let era = z / 146097;
    let doe = z - era * 146097;
    assert(0 <= doe < 146097);
    let yoe = (doe - doe / 1460 + doe / 36524 - doe / 146096) / 365;
    assert(0 <= yoe < 400);
    let doy = doe - (365 * yoe + yoe / 4 - yoe / 100);
    assert(0 <= doy < 366);
    let mp = (5 * doy + 2) / 153;
    assert(0 <= mp < 12);
    let y = yoe + era * 400;
    assert(y / 400 == era);
    let d = doy - (153 * mp + 2) / 5 + 1;
    assert(1 <= d <= 31);
    let m = if mp < 10 { mp + 3 } else { mp - 9 };
    let year = if m <= 2 { y + 1 } else { y };
    assert(day_number(first_date()) == -96465292);
    assert(day_number(last_date()) == 95026236);
    assert(-262144 <= year <= 262143);
    let c = civil_from_days(n);
    assert(c.year == year && c.month == m && c.day == d);
}

/// `day_number` counts each valid date once: the date of a valid date's
/// number is that date.
pub proof fn lemma_civil_from_days_of_day_number(date: CivilDate)
    requires
        date.is_valid(),
    ensures
        civil_from_days(day_number(date)) == date,
{
    reveal(day_number);
    reveal(civil_from_days);
    let y = if date.month <= 2 { date.year - 1 } else { date.year as int };
    let era = y / 400;
    let yoe = y - era * 400;
    assert(0 <= yoe < 400);
    let mp: int = if date.month > 2 { date.month - 3 } else { date.month + 9 };
    let doy = (153 * mp + 2) / 5 + date.day - 1;
    let doe = yoe * 365 + yoe / 4 - yoe / 100 + doy;
    assert(0 <= doy < 366);
    assert(0 <= doe < 146097);
    let n = era * 146097 + doe - 719468;
    assert(n + 719468 == era * 146097 + doe);
    assert((n + 719468) / 146097 == era);
    assert((doe - doe / 1460 + doe / 36524 - doe / 146096) / 365 == yoe);
    assert((5 * doy + 2) / 153 == mp);
}

/// From March 4800 BCE (astronomical year -4800) on, the Julian day number of
/// a date is 2_440_588 (that of 1970-01-01) plus its day number, so it is
/// 2_451_545 plus the days counted from 2000-01-01.
pub proof fn lemma_julian_day_is_day_count(date: CivilDate)
    requires
        date.is_valid(),
        date.year > -4800 || (date.year == -4800 && date.month >= 3),
    ensures
        julian_day_number(date.year as int, date.month as int, date.day as int)
            == day_number(date) + 2_440_588,
        julian_day_number(date.year as int, date.month as int, date.day as int) == 2_451_545
            + day_number(date) - day_number(CivilDate { year: 2000, month: 1, day: 1 }),
{
    reveal(day_number);
    let y = date.year as int;
    let m = date.month as int;
    let yy = if m <= 2 { y - 1 } else { y };
    let era = yy / 400;
    let yoe = yy - era * 400;
    assert(0 <= yoe < 400);
    assert(era >= -12);
    let k = era + 12;
    assert(yy + 4800 == 400 * k + yoe);
    assert((1461 * (400 * k + yoe)) / 4 == 146100 * k + 365 * yoe + yoe / 4);
    assert((yy + 4900) / 100 == 4 * k + (yoe + 100) / 100);
    let q = (yoe + 100) / 100;
    assert(1 <= q <= 4);
    assert((3 * (4 * k + q)) / 4 == 3 * k + (3 * q) / 4);
    assert(day_number(CivilDate { year: 2000, month: 1, day: 1 }) == 10957);
}

/// Calls chrono's `NaiveDate::checked_add_days` on `date`. Trusted: chrono
/// gives the date `days` days later when `date` is a valid date and the result
/// stays within chrono's dates, and `None` otherwise (an invalid `date` is
/// refused by `NaiveDate::from_ymd_opt`); every date chrono gives is valid.
#[verifier::external_body]
fn checked_add_days(date: CivilDate, days: u64) -> (moved: Option<CivilDate>)
    ensures
        moved == (if date.is_valid() && in_date_range(day_number(date) + days) {
            Some(civil_from_days(day_number(date) + days))
        } else {
            None
        }),
        moved matches Some(d) ==> d.is_valid(),
{
    let start = chrono::NaiveDate::from_ymd_opt(date.year, date.month, date.day)?;
    let end = start.checked_add_days(chrono::Days::new(days))?;
    Some(CivilDate { year: end.year(), month: end.month(), day: end.day() })
}

/// Calls chrono's `NaiveDate::checked_sub_days` on `date`. Trusted: chrono
/// gives the date `days` days earlier when `date` is a valid date and the
/// result stays within chrono's dates, and `None` otherwise (an invalid `date`
/// is refused by `NaiveDate::from_ymd_opt`); every date chrono gives is valid.
#[verifier::external_body]
fn checked_sub_days(date: CivilDate, days: u64) -> (moved: Option<CivilDate>)
    ensures
        moved == (if date.is_valid() && in_date_range(day_number(date) - days) {
            Some(civil_from_days(day_number(date) - days))
        } else {
            None
        }),
        moved matches Some(d) ==> d.is_valid(),
{
    let start = chrono::NaiveDate::from_ymd_opt(date.year, date.month, date.day)?;
    let end = start.checked_sub_days(chrono::Days::new(days))?;
    Some(CivilDate { year: end.year(), month: end.month(), day: end.day() })
}

/// `date` moved by `shift` days; a move away from an invalid date, or one that
/// would leave chrono's dates, keeps `date`.
pub open spec fn shifted_date(date: CivilDate, shift: i64) -> CivilDate {
    if shift != 0 && date.is_valid() && in_date_range(day_number(date) + shift) {
        civil_from_days(day_number(date) + shift)
    } else {
        date
    }
}

/// Moves `date` by `shift` whole days (forward when positive, back when
/// negative). When the result would leave the supported range, `date` is kept.
pub fn shift_date(date: CivilDate, shift: i64) -> (moved: CivilDate)
    ensures
        moved == shifted_date(date, shift),
        date.is_valid() ==> moved.is_valid(),
        date.is_valid() && in_date_range(day_number(date) + shift) ==> day_number(moved)
            == day_number(date) + shift,
{
    proof {
        if in_date_range(day_number(date) + shift) {
            lemma_day_number_of_civil_from_days(day_number(date) + shift);
        }
    }
    if shift >= 1 {
        match checked_add_days(date, shift as u64) {
            Some(d) => d,
            None => date,
        }
    } else if shift < 0 {
        let back: u64 = ((-(shift + 1)) as u64) + 1;
        match checked_sub_days(date, back) {
            Some(d) => d,
            None => date,
        }
    } else {
        date
    }
}

} // verus!
