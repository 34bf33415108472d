//! Calendar dates and `YYYY-MM-DDTHH:MM:SSZ` timestamps.

use vstd::prelude::*;
use crate::text;

verus! {

/// A date of the Gregorian calendar; months and days count from one.
pub struct Date {
    pub year: nat,
    pub month: nat,
    pub day: nat,
}

pub open spec fn is_leap(year: nat) -> bool {
    year % 4 == 0 && (year % 100 != 0 || year % 400 == 0)
}

pub open spec fn days_in_month(year: nat, month: nat) -> nat {
    if month == 2 {
        if is_leap(year) {
            29
        } else {
            28
        }
    } else if month == 4 || month == 6 || month == 9 || month == 11 {
        30
    } else {
        31
    }
}

/// The day after `date`.
pub open spec fn next_day(date: Date) -> Date {
    if date.day < days_in_month(date.year, date.month) {
        Date { year: date.year, month: date.month, day: date.day + 1 }
    } else if date.month < 12 {
        Date { year: date.year, month: date.month + 1, day: 1 }
    } else {
        Date { year: date.year + 1, month: 1, day: 1 }
    }
}

/// The date that lies `days` days after the first of January 1970.
pub open spec fn date_of(days: nat) -> Date
    decreases days,
{
    if days == 0 {
        Date { year: 1970, month: 1, day: 1 }
    } else {
        next_day(date_of((days - 1) as nat))
    }
}

/// `n` as a numeral of at least two digits.
pub open spec fn two_digits(n: nat) -> Seq<char> {
    text::zero_padded(text::decimal(n), 2)
}

/// The moment `millis` milliseconds after the start of 1970 in UTC, cut to
/// whole seconds, as `YYYY-MM-DDTHH:MM:SSZ`.
pub open spec fn rfc3339(millis: nat) -> Seq<char> {
    let seconds = millis / 1000;
    let date = date_of(seconds / 86_400);
    let time = seconds % 86_400;
    text::zero_padded(text::decimal(date.year), 4) + seq!['-'] + two_digits(date.month) + seq!['-']
        + two_digits(date.day) + seq!['T'] + two_digits(time / 3600) + seq![':'] + two_digits(
        time % 3600 / 60,
    ) + seq![':'] + two_digits(time % 60) + seq!['Z']
}

// Years counted from the first of March, so that the leap day comes last: the
// arithmetic of eras of 400 years, of which each has 146097 days.

/// The days before March year `y` of an era.
spec fn days_before(y: int) -> int {
    365 * y + y / 4 - y / 100
}

/// The March year of an era in which day `doe` of the era lies.
spec fn year_of_era(doe: int) -> int {
    (doe - doe / 1460 + doe / 36_524 - doe / 146_096) / 365
}

spec fn march_date(year: int, doy: int) -> Date {
    let mp = (5 * doy + 2) / 153;
    let month = if mp < 10 {
        mp + 3
    } else {
        mp - 9
    };
    Date {
        year: (if month <= 2 {
            year + 1
        } else {
            year
        }) as nat,
        month: month as nat,
        day: (doy - (153 * mp + 2) / 5 + 1) as nat,
    }
}

spec fn civil(days: nat) -> Date {
    let z = days as int + 719_468;
    let doe = z % 146_097;
    let yoe = year_of_era(doe);
    march_date(yoe + z / 146_097 * 400, doe - days_before(yoe))
}

/// Day `doe` lies in the March year that [`year_of_era`] names.
proof fn lemma_year_of_era(doe: int)
    requires
        0 <= doe < 146_097,
    ensures
        0 <= year_of_era(doe) < 400,
        days_before(year_of_era(doe)) <= doe,
        year_of_era(doe) < 399 ==> doe < days_before(year_of_era(doe) + 1),
{
    let c = if doe == 146_096 {
        3
    } else {
        doe / 36_524
    };
    let d = doe - 36_524 * c;
    let q = if d == 36_524 {
        24
    } else {
        d / 1461
    };
    let r = d - 1461 * q;
    assert(0 <= c <= 3);
    assert(0 <= d <= 36_524);
    assert(0 <= q <= 24);
    assert(0 <= r <= 1460);
    assert(doe / 1460 == 25 * c + (24 * c + d) / 1460);
    let e = (24 * c + q + r) / 1460;
    assert((24 * c + d) / 1460 == q + e);
    assert(0 <= e <= 1);
    let y4 = (r - e) / 365;
    let yoe = year_of_era(doe);
    assert(doe - doe / 1460 + doe / 36_524 - doe / 146_096 == 365 * (100 * c + 4 * q) + r - e);
    assert(yoe == 100 * c + 4 * q + y4);
    assert(0 <= y4 <= 3);
    assert(yoe / 4 == 25 * c + q);
    assert(yoe / 100 == c);
    assert(days_before(yoe) == 36_524 * c + 1461 * q + 365 * y4);
    assert(365 * y4 <= r);
    if y4 < 3 {
        assert(r < 365 * (y4 + 1));
        assert((yoe + 1) / 4 == 25 * c + q);
        assert((yoe + 1) / 100 == c);
    } else if q < 24 {
        assert((yoe + 1) / 4 == 25 * c + q + 1);
        assert((yoe + 1) / 100 == c);
    } else {
        assert((yoe + 1) / 4 == 25 * (c + 1));
        assert((yoe + 1) / 100 == c + 1);
    }
}

/// The bounds in [`lemma_year_of_era`] leave one year.
proof fn lemma_year_of_era_is(doe: int, y: int)
    requires
        0 <= doe < 146_097,
        0 <= y < 400,
        days_before(y) <= doe,
        y < 399 ==> doe < days_before(y + 1),
    ensures
        year_of_era(doe) == y,
{
    lemma_year_of_era(doe);
    let yoe = year_of_era(doe);
    if yoe < y {
        lemma_days_before_increases(yoe + 1, y);
    } else if y < yoe {
        lemma_days_before_increases(y + 1, yoe);
    }
}

proof fn lemma_days_before_increases(a: int, b: int)
    requires
        0 <= a <= b,
    ensures
        days_before(a) <= days_before(b),
{
}

/// The days of the March year that starts in `year`.
spec fn march_year_length(year: int) -> int {
    if is_leap((year + 1) as nat) {
        366
    } else {
        365
    }
}

proof fn lemma_march_year_length(era: int, y: int)
    requires
        0 <= era,
        0 <= y < 400,
    ensures
        y < 399 ==> march_year_length(y + era * 400) == days_before(y + 1) - days_before(y),
        y == 399 ==> march_year_length(y + era * 400) == 146_097 - days_before(y),
{
    let w = y + 1;
    let n = w + era * 400;
    assert(n % 4 == w % 4);
    assert(n % 100 == w % 100);
    assert(n % 400 == w % 400);
    assert(is_leap(n as nat) == is_leap(w as nat));
    if w % 4 == 0 {
        assert(w / 4 == y / 4 + 1);
    } else {
        assert(w / 4 == y / 4);
    }
    if w % 100 == 0 {
        assert(w / 100 == y / 100 + 1);
        assert(w % 4 == 0);
    } else {
        assert(w / 100 == y / 100);
    }
}

/// Within a March year, the next day of the year is the next day of the calendar.
proof fn lemma_march_step(year: int, doy: int)
    requires
        0 <= year,
        0 <= doy < march_year_length(year),
    ensures
        doy + 1 < march_year_length(year) ==> next_day(march_date(year, doy)) == march_date(
            year,
            doy + 1,
        ),
        doy + 1 == march_year_length(year) ==> next_day(march_date(year, doy)) == march_date(
            year + 1,
            0,
        ),
{
    let mp = (5 * doy + 2) / 153;
    assert(0 <= mp <= 11);
    assert(mp == 0 || mp == 1 || mp == 2 || mp == 3 || mp == 4 || mp == 5 || mp == 6 || mp == 7
        || mp == 8 || mp == 9 || mp == 10 || mp == 11);
}

proof fn lemma_civil_step(days: nat)
    ensures
        civil(days + 1) == next_day(civil(days)),
{
    let z = days as int + 719_468;
    let era = z / 146_097;
    let doe = z % 146_097;
    let yoe = year_of_era(doe);
    let doy = doe - days_before(yoe);
    lemma_year_of_era(doe);
    lemma_march_year_length(era, yoe);
    lemma_march_step(yoe + era * 400, doy);
    if doe + 1 < 146_097 {
        assert((z + 1) / 146_097 == era && (z + 1) % 146_097 == doe + 1);
        if doy + 1 < march_year_length(yoe + era * 400) {
            lemma_year_of_era_is(doe + 1, yoe);
        } else {
            assert(yoe < 399);
            lemma_march_year_length(era, yoe + 1);
            lemma_year_of_era_is(doe + 1, yoe + 1);
        }
    } else {
        assert((z + 1) / 146_097 == era + 1 && (z + 1) % 146_097 == 0);
        lemma_year_of_era_is(doe, 399);
        lemma_year_of_era_is(0, 0);
    }
}

proof fn lemma_civil_is_date_of(days: nat)
    ensures
        civil(days) == date_of(days),
    decreases days,
{
    if days == 0 {
        lemma_year_of_era_is(135_080, 369);
    } else {
        lemma_civil_is_date_of((days - 1) as nat);
        lemma_civil_step((days - 1) as nat);
    }
}

/// The year, month and day that lie `days` days after the first of January 1970.
fn civil_from_days(days: u64) -> (date: (u64, u64, u64))
    requires
        days <= u64::MAX / 86_400,
    ensures
        (Date { year: date.0 as nat, month: date.1 as nat, day: date.2 as nat }) == date_of(
            days as nat,
        ),
{
    let z: u64 = days + 719_468;
    let era: u64 = z / 146_097;
    let doe: u64 = z % 146_097;
    proof {
        lemma_civil_is_date_of(days as nat);
        lemma_year_of_era(doe as int);
        lemma_march_year_length(era as int, year_of_era(doe as int));
    }
    let yoe: u64 = (doe - doe / 1460 + doe / 36_524 - doe / 146_096) / 365;
    let year: u64 = yoe + era * 400;
    let doy: u64 = doe - (365 * yoe + yoe / 4 - yoe / 100);
    let mp: u64 = (5 * doy + 2) / 153;
    let day: u64 = doy - (153 * mp + 2) / 5 + 1;
    let month: u64 = if mp < 10 {
        mp + 3
    } else {
        mp - 9
    };
    let year: u64 = if month <= 2 {
        year + 1
    } else {
        year
    };
    (year, month, day)
}

/// Formats milliseconds since the Unix epoch as `YYYY-MM-DDTHH:MM:SSZ`.
#[verifier::spinoff_prover]
#[verifier::rlimit(50)]
pub fn rfc3339_from_millis(millis: u64) -> (stamp: String)
    ensures
        stamp@ == rfc3339(millis as nat),
{
    let seconds: u64 = millis / 1000;
    let (year, month, day) = civil_from_days(seconds / 86_400);
    let time: u64 = seconds % 86_400;
    let mut stamp = text::padded_decimal_text(year, 4);
    stamp.push('-');
    stamp.append(text::padded_decimal_text(month, 2).as_str());
    stamp.push('-');
    stamp.append(text::padded_decimal_text(day, 2).as_str());
    stamp.push('T');
    stamp.append(text::padded_decimal_text(time / 3600, 2).as_str());
    stamp.push(':');
    stamp.append(text::padded_decimal_text(time % 3600 / 60, 2).as_str());
    stamp.push(':');
    stamp.append(text::padded_decimal_text(time % 60, 2).as_str());
    stamp.push('Z');
    assert(stamp@ =~= rfc3339(millis as nat));
    stamp
}

/// Every date is one of the calendar.
pub proof fn law_dates_are_valid(days: nat)
    ensures
        date_of(days).year >= 1970,
        1 <= date_of(days).month <= 12,
        1 <= date_of(days).day <= days_in_month(date_of(days).year, date_of(days).month),
    decreases days,
{
    if days > 0 {
        law_dates_are_valid((days - 1) as nat);
    }
}

/// A timestamp tells the second, and nothing below it.
pub proof fn law_timestamps_are_whole_seconds(millis: nat)
    ensures
        rfc3339(millis) == rfc3339((millis / 1000) * 1000),
{
    assert((millis / 1000) * 1000 / 1000 == millis / 1000);
}

/// A timestamp has the shape `YYYY-MM-DDTHH:MM:SSZ` as long as its year has
/// four digits.
pub proof fn law_timestamp_shape(millis: nat)
    requires
        date_of(millis / 1000 / 86_400).year <= 9999,
    ensures
        rfc3339(millis).len() == 20,
        rfc3339(millis)[4] == '-',
        rfc3339(millis)[7] == '-',
        rfc3339(millis)[10] == 'T',
        rfc3339(millis)[13] == ':',
        rfc3339(millis)[16] == ':',
        rfc3339(millis)[19] == 'Z',
{
    let seconds = millis / 1000;
    let date = date_of(seconds / 86_400);
    let time = seconds % 86_400;
    law_dates_are_valid(seconds / 86_400);
    lemma_two_digits(date.month);
    lemma_two_digits(date.day);
    lemma_two_digits(time / 3600);
    lemma_two_digits(time % 3600 / 60);
    lemma_two_digits(time % 60);
    assert(text::zero_padded(text::decimal(date.year), 4).len() == 4) by {
        reveal_with_fuel(text::decimal, 4);
    }
}

proof fn lemma_two_digits(n: nat)
    requires
        n < 100,
    ensures
        two_digits(n).len() == 2,
{
    reveal_with_fuel(text::decimal, 2);
}

/// Whether date `a` lies before date `b`.
pub open spec fn earlier(a: Date, b: Date) -> bool {
    a.year < b.year || (a.year == b.year && (a.month < b.month || (a.month == b.month && a.day
        < b.day)))
}

/// Later days have later dates.
pub proof fn law_dates_are_ordered(a: nat, b: nat)
    requires
        a < b,
    ensures
        earlier(date_of(a), date_of(b)),
    decreases b,
{
    law_dates_are_valid((b - 1) as nat);
    if a < b - 1 {
        law_dates_are_ordered(a, (b - 1) as nat);
    }
}

/// The last moment of a year with four digits.
pub open spec fn last_of_four_digits() -> nat {
    253_402_300_799_999
}

proof fn lemma_four_digits(millis: nat)
    requires
        millis <= last_of_four_digits(),
    ensures
        date_of(millis / 1000 / 86_400).year <= 9999,
{
    let days = millis / 1000 / 86_400;
    assert(days <= 2_932_896);
    lemma_civil_is_date_of(2_932_896);
    lemma_year_of_era_is(146_036, 399);
    assert(date_of(2_932_896).year == 9999);
    if days < 2_932_896 {
        law_dates_are_ordered(days, 2_932_896);
    }
}

proof fn lemma_digits_are_ordered(d: nat, e: nat)
    requires
        d < e < 10,
    ensures
        text::digit(d) < text::digit(e),
{
}

proof fn lemma_two_digits_are(n: nat)
    requires
        n < 100,
    ensures
        two_digits(n) == seq![text::digit(n / 10), text::digit(n % 10)],
{
    reveal_with_fuel(text::decimal, 2);
    assert(text::digit(0) == '0');
    assert(two_digits(n) =~= seq![text::digit(n / 10), text::digit(n % 10)]);
}

proof fn lemma_four_digits_are(n: nat)
    requires
        n < 10_000,
    ensures
        text::zero_padded(text::decimal(n), 4) == two_digits(n / 100) + two_digits(n % 100),
{
    reveal_with_fuel(text::decimal, 4);
    lemma_two_digits_are(n / 100);
    lemma_two_digits_are(n % 100);
    assert(text::digit(0) == '0');
    assert(n / 10 / 10 == n / 100 && n / 10 / 10 / 10 == n / 100 / 10);
    assert(n % 100 / 10 == n / 10 % 10 && n % 100 % 10 == n % 10);
    assert(n / 100 % 10 == n / 10 / 10 % 10);
    assert(text::zero_padded(text::decimal(n), 4) =~= two_digits(n / 100) + two_digits(n % 100));
}

/// Numerals of two digits, with an order or else what follows them in order.
proof fn lemma_field(n: nat, m: nat, r: Seq<char>, t: Seq<char>)
    requires
        n < 100,
        m < 100,
        n < m || (n == m && text::before(r, t)),
    ensures
        text::before(two_digits(n) + r, two_digits(m) + t),
{
    lemma_two_digits_are(n);
    lemma_two_digits_are(m);
    if n < m {
        reveal_with_fuel(text::before, 3);
        if n / 10 < m / 10 {
            lemma_digits_are_ordered(n / 10, m / 10);
        } else {
            lemma_digits_are_ordered(n % 10, m % 10);
        }
        assert(text::before(two_digits(n), two_digits(m)));
    }
    text::lemma_before_by_parts(two_digits(n), two_digits(m), r, t);
}

/// A field that follows a separator.
proof fn lemma_separated(c: char, r: Seq<char>, t: Seq<char>)
    requires
        text::before(r, t),
    ensures
        text::before(seq![c] + r, seq![c] + t),
{
    text::lemma_before_by_parts(seq![c], seq![c], r, t);
}

/// The part of a timestamp that tells the second of the day.
spec fn time_text(time: nat) -> Seq<char> {
    two_digits(time / 3600) + (seq![':'] + (two_digits(time % 3600 / 60) + (seq![':'] + (two_digits(
        time % 60,
    ) + seq!['Z']))))
}

/// A timestamp of a date, with `rest` behind its date.
spec fn date_text(date: Date, rest: Seq<char>) -> Seq<char> {
    two_digits(date.year / 100) + (two_digits(date.year % 100) + (seq!['-'] + (two_digits(date.month)
        + (seq!['-'] + (two_digits(date.day) + (seq!['T'] + rest))))))
}

proof fn lemma_rfc3339_parts(millis: nat)
    requires
        millis <= last_of_four_digits(),
    ensures
        rfc3339(millis) == date_text(
            date_of(millis / 1000 / 86_400),
            time_text(millis / 1000 % 86_400),
        ),
{
    lemma_four_digits(millis);
    let date = date_of(millis / 1000 / 86_400);
    let time = millis / 1000 % 86_400;
    lemma_four_digits_are(date.year);
    let (century, year) = (two_digits(date.year / 100), two_digits(date.year % 100));
    let (month, day) = (two_digits(date.month), two_digits(date.day));
    let (hour, minute) = (two_digits(time / 3600), two_digits(time % 3600 / 60));
    let second = two_digits(time % 60);
    let front = century + year + seq!['-'] + month + seq!['-'] + day + seq!['T'];
    lemma_grouped(front, hour, seq![':'], minute, seq![':'], second, seq!['Z']);
    lemma_grouped(century, year, seq!['-'], month, seq!['-'], day, seq!['T']);
    lemma_regrouped(century, year, seq!['-'], month, seq!['-'], day, seq!['T'], time_text(time));
    assert(rfc3339(millis) == front + time_text(time));
}

/// Parts that are put together one after the other, or from the second on.
proof fn lemma_grouped(
    a: Seq<char>,
    b: Seq<char>,
    c: Seq<char>,
    d: Seq<char>,
    e: Seq<char>,
    f: Seq<char>,
    g: Seq<char>,
)
    ensures
        a + b + c + d + e + f + g == a + (b + (c + (d + (e + (f + g))))),
{
    assert(a + b + c + d + e + f + g =~= a + (b + (c + (d + (e + (f + g))))));
}

/// A part more behind such parts.
proof fn lemma_regrouped(
    a: Seq<char>,
    b: Seq<char>,
    c: Seq<char>,
    d: Seq<char>,
    e: Seq<char>,
    f: Seq<char>,
    g: Seq<char>,
    h: Seq<char>,
)
    ensures
        a + (b + (c + (d + (e + (f + g))))) + h == a + (b + (c + (d + (e + (f + (g + h)))))),
{
    assert(a + (b + (c + (d + (e + (f + g))))) + h =~= a + (b + (c + (d + (e + (f + (g + h)))))));
}

proof fn lemma_times_are_ordered(s: nat, t: nat)
    requires
        s < t < 86_400,
    ensures
        text::before(time_text(s), time_text(t)),
{
    let z = seq!['Z'];
    let (a6, b6) = (two_digits(s % 60) + z, two_digits(t % 60) + z);
    let (a5, b5) = (
        two_digits(s % 3600 / 60) + (seq![':'] + a6),
        two_digits(t % 3600 / 60) + (seq![':'] + b6),
    );
    if s / 3600 == t / 3600 {
        if s % 3600 / 60 == t % 3600 / 60 {
            assert(s % 60 < t % 60);
            lemma_field(s % 60, t % 60, z, z);
            lemma_separated(':', a6, b6);
        }
        lemma_field(s % 3600 / 60, t % 3600 / 60, seq![':'] + a6, seq![':'] + b6);
        lemma_separated(':', a5, b5);
    }
    lemma_field(s / 3600, t / 3600, seq![':'] + a5, seq![':'] + b5);
}

proof fn lemma_date_texts_are_ordered(x: Date, y: Date, r: Seq<char>, t: Seq<char>)
    requires
        x.year <= 9999 && x.month < 100 && x.day < 100,
        y.year <= 9999 && y.month < 100 && y.day < 100,
        earlier(x, y) || (x == y && text::before(r, t)),
    ensures
        text::before(date_text(x, r), date_text(y, t)),
{
    let (a4, b4) = (seq!['T'] + r, seq!['T'] + t);
    let (a3, b3) = (two_digits(x.day) + a4, two_digits(y.day) + b4);
    let (a2, b2) = (two_digits(x.month) + (seq!['-'] + a3), two_digits(y.month) + (seq!['-'] + b3));
    let (a1, b1) = (seq!['-'] + a2, seq!['-'] + b2);
    if x.year == y.year {
        if x.month == y.month {
            if x.day == y.day {
                lemma_separated('T', r, t);
            }
            lemma_field(x.day, y.day, a4, b4);
            lemma_separated('-', a3, b3);
        }
        lemma_field(x.month, y.month, seq!['-'] + a3, seq!['-'] + b3);
        lemma_separated('-', a2, b2);
    }
    if x.year / 100 == y.year / 100 {
        lemma_field(x.year % 100, y.year % 100, a1, b1);
    }
    lemma_field(
        x.year / 100,
        y.year / 100,
        two_digits(x.year % 100) + a1,
        two_digits(y.year % 100) + b1,
    );
}

/// Seconds in order give timestamps in order.
proof fn lemma_timestamps_increase(a: nat, b: nat)
    requires
        a / 1000 < b / 1000,
        b <= last_of_four_digits(),
    ensures
        text::before(rfc3339(a), rfc3339(b)),
{
    let (da, db) = (a / 1000 / 86_400, b / 1000 / 86_400);
    let (s, t) = (a / 1000 % 86_400, b / 1000 % 86_400);
    lemma_four_digits(a);
    lemma_four_digits(b);
    law_dates_are_valid(da);
    law_dates_are_valid(db);
    lemma_rfc3339_parts(a);
    lemma_rfc3339_parts(b);
    if da < db {
        law_dates_are_ordered(da, db);
    } else {
        assert(da == db && s < t);
        lemma_times_are_ordered(s, t);
    }
    lemma_date_texts_are_ordered(date_of(da), date_of(db), time_text(s), time_text(t));
}

/// Timestamps of years with four digits tell seconds apart and keep their
/// order: two of them are equal exactly where their seconds are, and one comes
/// before the other as a text exactly where its second does.
pub proof fn law_timestamps_are_ordered(a: nat, b: nat)
    requires
        a <= last_of_four_digits(),
        b <= last_of_four_digits(),
    ensures
        rfc3339(a) == rfc3339(b) <==> a / 1000 == b / 1000,
        text::before(rfc3339(a), rfc3339(b)) <==> a / 1000 < b / 1000,
{
    text::lemma_before_is_strict(rfc3339(a), rfc3339(b));
    text::lemma_before_is_strict(rfc3339(b), rfc3339(a));
    if a / 1000 < b / 1000 {
        lemma_timestamps_increase(a, b);
    } else if b / 1000 < a / 1000 {
        lemma_timestamps_increase(b, a);
    } else {
        assert(rfc3339(a) == rfc3339(b));
    }
}

/// A timestamp reads back: its numerals are the year, month and day of its
/// date, and its hours, minutes and seconds are those of its day.
pub proof fn law_timestamp_reads_back(millis: u64, stamp: String)
    requires
        date_of((millis / 1000 / 86_400) as nat).year <= 9999,
        call_ensures(rfc3339_from_millis, (millis,), stamp),
    ensures
        ({
            let s = stamp@;
            let date = date_of((millis / 1000 / 86_400) as nat);
            &&& s.len() == 20
            &&& text::numeral_value(s.subrange(0, 4)) == date.year
            &&& text::numeral_value(s.subrange(5, 7)) == date.month
            &&& text::numeral_value(s.subrange(8, 10)) == date.day
            &&& 0 <= text::numeral_value(s.subrange(14, 16)) < 60
            &&& 0 <= text::numeral_value(s.subrange(17, 19)) < 60
            &&& text::numeral_value(s.subrange(11, 13)) * 3600 + text::numeral_value(
                s.subrange(14, 16),
            ) * 60 + text::numeral_value(s.subrange(17, 19)) == (millis / 1000) % 86_400
        }),
{
    let n = millis as nat;
    let seconds = n / 1000;
    let date = date_of(seconds / 86_400);
    let time = seconds % 86_400;
    law_timestamp_shape(n);
    law_dates_are_valid(seconds / 86_400);
    lemma_two_digits_read_back(date.month);
    lemma_two_digits_read_back(date.day);
    lemma_two_digits_read_back(time / 3600);
    lemma_two_digits_read_back(time % 3600 / 60);
    lemma_two_digits_read_back(time % 60);
    let year = text::zero_padded(text::decimal(date.year), 4);
    assert(year.len() == 4) by {
        reveal_with_fuel(text::decimal, 4);
    }
    text::lemma_padded_value(date.year, 4);
    let s = stamp@;
    assert(s.subrange(0, 4) =~= year);
    assert(s.subrange(5, 7) =~= two_digits(date.month));
    assert(s.subrange(8, 10) =~= two_digits(date.day));
    assert(s.subrange(11, 13) =~= two_digits(time / 3600));
    assert(s.subrange(14, 16) =~= two_digits(time % 3600 / 60));
    assert(s.subrange(17, 19) =~= two_digits(time % 60));
}

proof fn lemma_two_digits_read_back(n: nat)
    requires
        n < 100,
    ensures
        two_digits(n).len() == 2,
        text::numeral_value(two_digits(n)) == n,
{
    lemma_two_digits(n);
    text::lemma_padded_value(n, 2);
}

/// The calendar goes on day by day from the first of January 1970: to the next
/// day of the month while there is one, else to the first of the next month. A
/// month has the days of the Gregorian calendar.
pub proof fn law_calendar_goes_day_by_day(days: nat)
    ensures
        ({
            let today = date_of(days);
            let next = date_of(days + 1);
            let leap = today.year % 400 == 0 || (today.year % 4 == 0 && today.year % 100 != 0);
            let length: nat = if today.month == 2 {
                if leap {
                    29
                } else {
                    28
                }
            } else if today.month == 4 || today.month == 6 || today.month == 9 || today.month
                == 11 {
                30
            } else {
                31
            };
            &&& date_of(0) == (Date { year: 1970, month: 1, day: 1 })
            &&& today.day < length ==> next == (Date { day: today.day + 1, ..today })
            &&& today.day >= length && today.month < 12 ==> next == (Date {
                year: today.year,
                month: today.month + 1,
                day: 1,
            })
            &&& today.day >= length && today.month >= 12 ==> next == (Date {
                year: today.year + 1,
                month: 1,
                day: 1,
            })
        }),
{
}

} // verus!
