//! Dates as the bot reads them (`JJ/MM/AAAA`), the proleptic Gregorian calendar
//! that turns them into Unix timestamps, and the checks an edition's dates go through.

use vstd::prelude::*;
use chrono::{NaiveDate, NaiveDateTime};
use crate::text::{
    concat2, decimal_spec, i64_to_decimal, owned, parse_u16, parse_u8, parse_unsigned_spec,
    is_digit, push_char, signed_decimal_spec, split_on, split_spec, u64_to_decimal, views_of,
    zero_pad_spec, zero_padded,
};

verus! {

// ---------------------------------------------------------------------------
// The calendar
// ---------------------------------------------------------------------------

pub open spec fn is_leap_year(y: int) -> bool {
    y % 4 == 0 && (y % 100 != 0 || y % 400 == 0)
}

pub open spec fn days_in_month(y: int, m: int) -> int {
    if m == 2 {
        if is_leap_year(y) { 29 } else { 28 }
    } else if m == 4 || m == 6 || m == 9 || m == 11 {
        30
    } else {
        31
    }
}

/// Whether year `y`, month `m`, day `d` names a day of the proleptic Gregorian calendar.
pub open spec fn is_valid_date(y: int, m: int, d: int) -> bool {
    1 <= m <= 12 && 1 <= d <= days_in_month(y, m)
}

/// Days of the year `y` before the first day of month `m`.
pub open spec fn days_before_month(y: int, m: int) -> int
    decreases m,
{
    if m <= 1 {
        0
    } else {
        days_before_month(y, m - 1) + days_in_month(y, m - 1)
    }
}

/// Days from 1 January of year 0 to 1 January of year `y` (negative before year 0):
/// 365 per year plus one per leap year in between.
pub open spec fn days_before_year(y: int) -> int {
    365 * y + (y + 3) / 4 - (y + 99) / 100 + (y + 399) / 400
}

/// Days from 1 January 1970 to the given day.
pub open spec fn days_since_epoch(y: int, m: int, d: int) -> int {
    days_before_year(y) - days_before_year(1970) + days_before_month(y, m) + d - 1
}

/// The Unix timestamp of midnight (UTC) of the given day.
pub open spec fn midnight_timestamp(y: int, m: int, d: int) -> int {
    days_since_epoch(y, m, d) * 86400
}

/// Earliest and latest years that chrono's dates cover.
pub open spec fn chrono_min_year() -> int {
    -262143
}

pub open spec fn chrono_max_year() -> int {
    262142
}

/// Whether a timestamp falls on a day that chrono can represent.
pub open spec fn timestamp_in_chrono_range(ts: int) -> bool {
    midnight_timestamp(chrono_min_year(), 1, 1) <= ts < midnight_timestamp(
        chrono_max_year(),
        12,
        31,
    ) + 86400
}

/// The day (year, month, day) on which a timestamp falls.
pub open spec fn day_of_timestamp(ts: int) -> (int, int, int) {
    choose|t: (int, int, int)|
        is_valid_date(t.0, t.1, t.2) && midnight_timestamp(t.0, t.1, t.2) <= ts
            < midnight_timestamp(t.0, t.1, t.2) + 86400
}

/// How chrono writes a year with `%Y`: four digits for years 0 to 9999, otherwise a
/// sign and at least four digits.
pub open spec fn year_label(y: int) -> Seq<char> {
    if 0 <= y <= 9999 {
        zero_pad_spec(decimal_spec(y as nat), 4)
    } else if y > 9999 {
        seq!['+'] + decimal_spec(y as nat)
    } else {
        seq!['-'] + zero_pad_spec(decimal_spec((-y) as nat), 4)
    }
}

/// `JJ/MM/AAAA` of the day on which a timestamp falls, as chrono formats it with `%d/%m/%Y`.
pub open spec fn day_label_spec(ts: int) -> Seq<char> {
    let t = day_of_timestamp(ts);
    zero_pad_spec(decimal_spec(t.2 as nat), 2) + seq!['/'] + zero_pad_spec(
        decimal_spec(t.1 as nat),
        2,
    ) + seq!['/'] + year_label(t.0)
}

proof fn lemma_days_before_month_bounds(y: int, m: int)
    requires
        1 <= m <= 13,
    ensures
        0 <= days_before_month(y, m) <= 31 * (m - 1),
    decreases m,
{
    if m > 1 {
        lemma_days_before_month_bounds(y, m - 1);
    }
}

/// Midnight timestamps of the years a typed date can hold fit in an `i64`.
pub proof fn lemma_midnight_timestamp_fits(y: int, m: int, d: int)
    requires
        0 <= y <= 65535,
        1 <= m <= 12,
        1 <= d <= 31,
    ensures
        -62167219200 <= midnight_timestamp(y, m, d) <= 2073600000000,
{
    lemma_days_before_month_bounds(y, m);
    assert(0 <= days_before_year(y) <= 367 * y + 402);
    assert(days_before_year(1970) == 719528);
}

proof fn lemma_days_in_year(y: int)
    ensures
        days_before_year(y + 1) - days_before_year(y) == (if is_leap_year(y) { 366int } else { 365int }),
        days_before_month(y, 13) == (if is_leap_year(y) { 366int } else { 365int }),
{
    assert(days_before_month(y, 13) == (if is_leap_year(y) { 366int } else { 365int })) by {
        reveal_with_fuel(days_before_month, 13);
    }
    assert((y + 4) / 4 - (y + 3) / 4 == (if y % 4 == 0 { 1int } else { 0int }));
    assert((y + 100) / 100 - (y + 99) / 100 == (if y % 100 == 0 { 1int } else { 0int }));
    assert((y + 400) / 400 - (y + 399) / 400 == (if y % 400 == 0 { 1int } else { 0int }));
}

proof fn lemma_years_ordered(y1: int, y2: int)
    requires
        y1 < y2,
    ensures
        days_before_year(y1 + 1) <= days_before_year(y2),
    decreases y2 - y1,
{
    if y2 > y1 + 1 {
        lemma_years_ordered(y1, y2 - 1);
        lemma_days_in_year(y2 - 1);
    }
}

proof fn lemma_months_ordered(y: int, m1: int, m2: int)
    requires
        1 <= m1 < m2 <= 13,
    ensures
        days_before_month(y, m1 + 1) <= days_before_month(y, m2),
    decreases m2 - m1,
{
    if m2 > m1 + 1 {
        lemma_months_ordered(y, m1, m2 - 1);
    }
}

/// A day's place within its year: after the months before it, before the next month.
proof fn lemma_day_in_year(y: int, m: int, d: int)
    requires
        is_valid_date(y, m, d),
    ensures
        days_before_month(y, m) <= days_before_month(y, m) + d - 1 < days_before_month(y, m + 1),
        days_before_month(y, m + 1) <= days_before_month(y, 13),
{
    if m + 1 < 13 {
        lemma_months_ordered(y, m + 1, 13);
    }
}

/// Two days of the calendar with the same number of days since the epoch are the same day.
proof fn lemma_days_since_epoch_injective(y1: int, m1: int, d1: int, y2: int, m2: int, d2: int)
    requires
        is_valid_date(y1, m1, d1),
        is_valid_date(y2, m2, d2),
        days_since_epoch(y1, m1, d1) == days_since_epoch(y2, m2, d2),
    ensures
        y1 == y2 && m1 == m2 && d1 == d2,
{
    lemma_day_in_year(y1, m1, d1);
    lemma_day_in_year(y2, m2, d2);
    lemma_days_before_month_bounds(y1, m1);
    lemma_days_before_month_bounds(y2, m2);
    lemma_days_in_year(y1);
    lemma_days_in_year(y2);
    if y1 < y2 {
        lemma_years_ordered(y1, y2);
    } else if y2 < y1 {
        lemma_years_ordered(y2, y1);
    }
    assert(y1 == y2);
    if m1 < m2 {
        lemma_months_ordered(y1, m1, m2);
    } else if m2 < m1 {
        lemma_months_ordered(y1, m2, m1);
    }
}

/// The day on which midnight of a day falls is that day.
pub proof fn lemma_day_of_midnight(y: int, m: int, d: int)
    requires
        is_valid_date(y, m, d),
    ensures
        day_of_timestamp(midnight_timestamp(y, m, d)) == (y, m, d),
{
    let ts = midnight_timestamp(y, m, d);
    let w = (y, m, d);
    assert(is_valid_date(w.0, w.1, w.2) && midnight_timestamp(w.0, w.1, w.2) <= ts < midnight_timestamp(
        w.0,
        w.1,
        w.2,
    ) + 86400);
    let t = day_of_timestamp(ts);
    assert(is_valid_date(t.0, t.1, t.2) && midnight_timestamp(t.0, t.1, t.2) <= ts < midnight_timestamp(
        t.0,
        t.1,
        t.2,
    ) + 86400);
    let a = days_since_epoch(t.0, t.1, t.2);
    let b = days_since_epoch(y, m, d);
    assert(a == b) by (nonlinear_arith)
        requires
            a * 86400 <= b * 86400 < a * 86400 + 86400,
    ;
    lemma_days_since_epoch_injective(t.0, t.1, t.2, y, m, d);
}

/// A day's midnight is shown as the day itself: `JJ/MM/` and the year, so an
/// edition's dates are shown as the organizer typed them (zero-padded).
pub proof fn law_midnight_shown_as_typed(y: int, m: int, d: int)
    requires
        is_valid_date(y, m, d),
    ensures
        day_label_spec(midnight_timestamp(y, m, d)) == zero_pad_spec(decimal_spec(d as nat), 2) + seq!['/']
            + zero_pad_spec(decimal_spec(m as nat), 2) + seq!['/'] + year_label(y),
{
    lemma_day_of_midnight(y, m, d);
}

/// The Unix timestamp of midnight of a day, or `None` when the day does not exist.
///
/// Calls `NaiveDate::from_ymd_opt`, then `and_hms(0, 0, 0)` and `timestamp()` on the
/// date it gives. Trusted: chrono documents that `from_ymd_opt` returns `None` exactly
/// for days that do not exist in the proleptic Gregorian calendar (or lie outside its
/// year range, which the years taken here do not reach), and that `timestamp` counts the
/// non-leap seconds since midnight of 1 January 1970.
#[verifier::external_body]
fn naive_midnight_timestamp(year: i32, month: u32, day: u32) -> (res: Option<i64>)
    requires
        0 <= year <= 65535,
    ensures
        res == (if is_valid_date(year as int, month as int, day as int) {
            Some(midnight_timestamp(year as int, month as int, day as int) as i64)
        } else {
            None
        }),
{
    #[allow(deprecated)]
    match NaiveDate::from_ymd_opt(year, month, day) {
        Some(date) => Some(date.and_hms(0, 0, 0).timestamp()),
        None => None,
    }
}

/// The day of a timestamp written `JJ/MM/AAAA`.
///
/// Calls `NaiveDateTime::from_timestamp_opt(ts, 0)`, then `format("%d/%m/%Y")` and
/// `to_string()`. Trusted: chrono's source shows that `from_timestamp_opt` gives the
/// date-time `ts` seconds after the epoch (`None` only outside the range that the
/// `requires` excludes), that `%d` and `%m` are written with two digits and that `%Y`
/// is written as `year_label` states.
#[verifier::external_body]
fn naive_day_label(ts: i64) -> (res: String)
    requires
        timestamp_in_chrono_range(ts as int),
    ensures
        res@ == day_label_spec(ts as int),
{
    #[allow(deprecated)]
    NaiveDateTime::from_timestamp_opt(ts, 0).unwrap().format("%d/%m/%Y").to_string()
}

/// `JJ/MM/AAAA` of the day on which `ts` falls, the way the bot shows a stored date.
pub fn day_label(ts: i64) -> (res: String)
    requires
        timestamp_in_chrono_range(ts as int),
    ensures
        res@ == day_label_spec(ts as int),
{
    naive_day_label(ts)
}

/// What chrono's `NaiveDate::parse_from_str(s, "%d/%m/%Y")` followed by midnight and
/// `timestamp()` gives for the text `s` (`None` when the text is not such a date).
pub uninterp spec fn dmy_text_timestamp(s: Seq<char>) -> Option<i64>;

/// The value of a decimal digit character.
pub open spec fn digit_of(c: char) -> int {
    (c as int) - ('0' as int)
}

/// Whether `s` is written exactly `DD/MM/YYYY`: two digits, `/`, two digits, `/`,
/// four digits.
pub open spec fn canonical_dmy(s: Seq<char>) -> bool {
    &&& s.len() == 10
    &&& s[2] == '/' && s[5] == '/'
    &&& is_digit(s[0]) && is_digit(s[1]) && is_digit(s[3]) && is_digit(s[4])
    &&& is_digit(s[6]) && is_digit(s[7]) && is_digit(s[8]) && is_digit(s[9])
}

/// The (year, month, day) a `DD/MM/YYYY` text writes.
pub open spec fn canonical_dmy_fields(s: Seq<char>) -> (int, int, int) {
    (
        digit_of(s[6]) * 1000 + digit_of(s[7]) * 100 + digit_of(s[8]) * 10 + digit_of(s[9]),
        digit_of(s[3]) * 10 + digit_of(s[4]),
        digit_of(s[0]) * 10 + digit_of(s[1]),
    )
}

/// What chrono gives for a `DD/MM/YYYY` text: midnight of that day when it
/// exists, nothing otherwise.
pub open spec fn canonical_dmy_timestamp(s: Seq<char>) -> Option<i64> {
    let f = canonical_dmy_fields(s);
    if is_valid_date(f.0, f.1, f.2) {
        Some(midnight_timestamp(f.0, f.1, f.2) as i64)
    } else {
        None
    }
}

/// Reads a date typed as `JJ/MM/AAAA` and gives the timestamp of its midnight.
///
/// Calls `NaiveDate::parse_from_str(s, "%d/%m/%Y")`, then `and_hms_micro_opt(0, 0, 0, 0)`
/// and `timestamp()`. Trusted: the result is a function of the text alone, named
/// `dmy_text_timestamp`; and for a text written exactly `DD/MM/YYYY` it is
/// midnight of that day when the day exists (`%d`, `%m` and `%Y` read those digits,
/// and chrono refuses a day that does not exist). chrono's rules for other texts
/// (leading spaces, one-digit fields, signed years) are not restated.
#[verifier::external_body]
fn parse_dmy_timestamp(s: &str) -> (res: Option<i64>)
    ensures
        res == dmy_text_timestamp(s@),
        canonical_dmy(s@) ==> res == canonical_dmy_timestamp(s@),
{
    #[allow(deprecated)]
    match NaiveDate::parse_from_str(s, "%d/%m/%Y") {
        Ok(date) => Some(date.and_hms_micro_opt(0, 0, 0, 0).unwrap().timestamp()),
        Err(_) => None,
    }
}

/// A date typed by a user as `JJ/MM/AAAA`, read into the timestamp of its midnight;
/// `None` when chrono does not read it as a date.
pub fn typed_date_timestamp(s: &str) -> (res: Option<i64>)
    ensures
        res == dmy_text_timestamp(s@),
        canonical_dmy(s@) ==> res == canonical_dmy_timestamp(s@),
{
    parse_dmy_timestamp(s)
}

/// Whether chrono can show the day of a timestamp (see `timestamp_in_chrono_range`).
pub fn day_is_shown(ts: i64) -> (res: bool)
    ensures
        res == timestamp_in_chrono_range(ts as int),
{
    proof {
        assert(days_before_year(-262143) == -95745764);
        assert(days_before_year(262142) == 95745400);
        assert(days_before_year(1970) == 719528);
        assert(days_before_month(262142, 12) == 334) by {
            reveal_with_fuel(days_before_month, 12);
        }
        assert(days_before_month(-262143, 1) == 0);
        assert(midnight_timestamp(-262143, 1, 1) == -8334601228800);
        assert(midnight_timestamp(262142, 12, 31) + 86400 == 8210266876800);
    }
    -8334601228800i64 <= ts && ts < 8210266876800i64
}

// ---------------------------------------------------------------------------
// Dates as typed in the edition form
// ---------------------------------------------------------------------------

/// A day as typed by an organizer: day, month and year, not yet checked against
/// the calendar.
#[derive(Clone, Copy, Debug, PartialEq, Eq)]
pub struct Date {
    pub jour: u8,
    pub mois: u8,
    pub annee: u16,
}

/// The message given when a date has not three `/`-separated parts.
pub const MALFORMED_DATE_MESSAGE: &'static str =
    "La date n'est pas correctement écrite. Respecte l'écriture suivante : JJ/MM/AAAA-JJ/MM/AAAA";

pub open spec fn unsigned_value(s: Seq<char>, max: nat) -> nat {
    match parse_unsigned_spec(s, max) {
        Some(v) => v,
        None => 0,
    }
}

/// Whether reading one date does not abort: it either has not three `/`-separated
/// parts (an error the user is told about) or each part is a number of its type.
pub open spec fn one_date_readable(s: Seq<char>) -> bool {
    let parts = split_spec(s, '/');
    parts.len() != 3 || (parse_unsigned_spec(parts[0], 0xff) is Some && parse_unsigned_spec(
        parts[1],
        0xff,
    ) is Some && parse_unsigned_spec(parts[2], 0xffff) is Some)
}

/// The date that `JJ/MM/AAAA` text stands for, or `None` when it has not three parts.
pub open spec fn one_date_spec(s: Seq<char>) -> Option<Date> {
    let parts = split_spec(s, '/');
    if parts.len() != 3 {
        None
    } else {
        Some(
            Date {
                jour: unsigned_value(parts[0], 0xff) as u8,
                mois: unsigned_value(parts[1], 0xff) as u8,
                annee: unsigned_value(parts[2], 0xffff) as u16,
            },
        )
    }
}

/// Whether `s` is one well written date: three `/`-separated numbers.
pub open spec fn one_date_complete(s: Seq<char>) -> bool {
    split_spec(s, '/').len() == 3 && one_date_readable(s)
}

/// Whether reading a pair of dates does not abort: it either has not two `-`-separated
/// parts (an error the user is told about) or both parts are complete dates.
pub open spec fn two_dates_readable(s: Seq<char>) -> bool {
    let parts = split_spec(s, '-');
    parts.len() != 2 || (one_date_complete(parts[0]) && one_date_complete(parts[1]))
}

/// The message given when a pair of dates has not two `-`-separated parts.
pub open spec fn malformed_pair_message(s: Seq<char>) -> Seq<char> {
    "les dates "@ + s + " sont mal écrites. Respecte bien le format JJ/MM/AAAA-JJ/MM/AAAA"@
}

impl Date {
    /// The date written `JJ-MM-AAAA` with zero padding, as shown in error messages.
    pub fn to_string(&self) -> (res: String)
        ensures
            res@ == zero_pad_spec(decimal_spec(self.jour as nat), 2) + seq!['-'] + zero_pad_spec(
                decimal_spec(self.mois as nat),
                2,
            ) + seq!['-'] + zero_pad_spec(decimal_spec(self.annee as nat), 4),
    {
        let mut s = zero_padded(self.jour as u64, 2);
        push_char(&mut s, '-');
        let m = zero_padded(self.mois as u64, 2);
        s.append(m.as_str());
        push_char(&mut s, '-');
        let y = zero_padded(self.annee as u64, 4);
        s.append(y.as_str());
        s
    }
}

/// Whether reading one date would abort, checked on the text (see `one_date_readable`).
pub fn one_date_is_readable(date: &str) -> (res: bool)
    ensures
        res == one_date_readable(date@),
{
    let parts = split_on(date, '/');
    if parts.len() != 3 {
        return true;
    }
    proof {
        assert(views_of(parts@)[0] == parts@[0]@);
        assert(views_of(parts@)[1] == parts@[1]@);
        assert(views_of(parts@)[2] == parts@[2]@);
    }
    parse_u8(parts[0]).is_some() && parse_u8(parts[1]).is_some() && parse_u16(parts[2]).is_some()
}

/// Whether reading a pair of dates would abort, checked on the text (see
/// `two_dates_readable`).
pub fn two_dates_are_readable(date: &str) -> (res: bool)
    ensures
        res == two_dates_readable(date@),
{
    let parts = split_on(date, '-');
    if parts.len() != 2 {
        return true;
    }
    proof {
        assert(views_of(parts@)[0] == parts@[0]@);
        assert(views_of(parts@)[1] == parts@[1]@);
    }
    let a = split_on(parts[0], '/');
    let b = split_on(parts[1], '/');
    a.len() == 3 && one_date_is_readable(parts[0]) && b.len() == 3 && one_date_is_readable(
        parts[1],
    )
}

/// Reads one date written `JJ/MM/AAAA`; an error when it has not three `/`-separated parts.
pub fn parse_one_date(date: &str) -> (res: Result<Date, String>)
    requires
        one_date_readable(date@),
    ensures
        match one_date_spec(date@) {
            Some(d) => res == Ok::<Date, String>(d),
            None => res matches Err(e) && e@ == MALFORMED_DATE_MESSAGE@,
        },
{
    let parts = split_on(date, '/');
    if parts.len() != 3 {
        return Err(owned(MALFORMED_DATE_MESSAGE));
    }
    proof {
        assert(views_of(parts@)[0] == parts@[0]@);
        assert(views_of(parts@)[1] == parts@[1]@);
        assert(views_of(parts@)[2] == parts@[2]@);
    }
    let jour = parse_u8(parts[0]).unwrap();
    let mois = parse_u8(parts[1]).unwrap();
    let annee = parse_u16(parts[2]).unwrap();
    Ok(Date { jour, mois, annee })
}

/// Reads two dates written `JJ/MM/AAAA-JJ/MM/AAAA`; an error, quoting the text, when
/// it has not two `-`-separated parts.
pub fn parse_two_dates(date: &str) -> (res: Result<(Date, Date), String>)
    requires
        two_dates_readable(date@),
    ensures
        ({
            let parts = split_spec(date@, '-');
            if parts.len() != 2 {
                res matches Err(e) && e@ == malformed_pair_message(date@)
            } else {
                res == Ok::<(Date, Date), String>(
                    (one_date_spec(parts[0]).unwrap(), one_date_spec(parts[1]).unwrap()),
                )
            }
        }),
{
    let parts = split_on(date, '-');
    if parts.len() != 2 {
        let msg = concat2("les dates ", date);
        let msg = concat2(msg.as_str(), " sont mal écrites. Respecte bien le format JJ/MM/AAAA-JJ/MM/AAAA");
        return Err(msg);
    }
    proof {
        assert(views_of(parts@)[0] == parts@[0]@);
        assert(views_of(parts@)[1] == parts@[1]@);
    }
    let date1 = match parse_one_date(parts[0]) {
        Ok(d) => d,
        Err(_) => {
            proof {
                assert(false);
            }
            return Err(String::new());
        }
    };
    let date2 = match parse_one_date(parts[1]) {
        Ok(d) => d,
        Err(_) => {
            proof {
                assert(false);
            }
            return Err(String::new());
        }
    };
    Ok((date1, date2))
}

/// The timestamp of midnight of a typed date, or `None` when that day does not exist.
pub fn timestamp_from_date(date: &Date) -> (res: Option<i64>)
    ensures
        is_valid_date(date.annee as int, date.mois as int, date.jour as int) ==> (res matches Some(
            ts,
        ) && ts as int == midnight_timestamp(date.annee as int, date.mois as int, date.jour as int)),
        !is_valid_date(date.annee as int, date.mois as int, date.jour as int) ==> res is None,
{
    let res = naive_midnight_timestamp(date.annee as i32, date.mois as u32, date.jour as u32);
    proof {
        if is_valid_date(date.annee as int, date.mois as int, date.jour as int) {
            lemma_midnight_timestamp_fits(date.annee as int, date.mois as int, date.jour as int);
        }
    }
    res
}

/// The message telling that a typed date does not exist.
pub open spec fn invalid_date_message(date: Date) -> Seq<char> {
    "La date \""@ + zero_pad_spec(decimal_spec(date.jour as nat), 2) + seq!['-'] + zero_pad_spec(
        decimal_spec(date.mois as nat),
        2,
    ) + seq!['-'] + zero_pad_spec(decimal_spec(date.annee as nat), 4) + "\" entrée est invalide"@
}

/// The timestamp of a typed date, with `0` standing for a day that does not exist;
/// in that case also the message to send to the user.
pub fn get_timestamp_from_date(date: &Date) -> (res: (i64, Option<String>))
    ensures
        is_valid_date(date.annee as int, date.mois as int, date.jour as int) ==> res.0
            == midnight_timestamp(date.annee as int, date.mois as int, date.jour as int) && res.1
            is None,
        !is_valid_date(date.annee as int, date.mois as int, date.jour as int) ==> res.0 == 0
            && (res.1 matches Some(m) && m@ == invalid_date_message(*date)),
{
    match timestamp_from_date(date) {
        Some(ts) => (ts, None),
        None => {
            let shown = date.to_string();
            let msg = concat2("La date \"", shown.as_str());
            let msg = concat2(msg.as_str(), "\" entrée est invalide");
            (0, Some(msg))
        }
    }
}

// ---------------------------------------------------------------------------
// Discord snowflakes
// ---------------------------------------------------------------------------

/// Milliseconds between the Unix epoch and Discord's epoch (1 January 2015).
pub const DISCORD_EPOCH_MS: u64 = 1420070400000;

/// The Unix time, in milliseconds, at which a Discord snowflake was made.
pub open spec fn snowflake_ms(id: u64) -> int {
    (id >> 22u64) as int + DISCORD_EPOCH_MS as int
}

/// The Unix time, in seconds, at which an interaction with this id was made.
pub fn snowflake_timestamp(id: u64) -> (res: i64)
    ensures
        res as int == snowflake_ms(id) / 1000,
{
    let high = id >> 22u64;
    assert(high <= 0x3ff_ffff_ffff) by (bit_vector)
        requires
            high == id >> 22u64,
    ;
    ((high + DISCORD_EPOCH_MS) / 1000) as i64
}

/// The delay, in milliseconds, between an interaction's creation and `now_ms`.
pub fn ping_delay_ms(now_ms: i64, id: u64) -> (res: i64)
    requires
        i64::MIN <= now_ms - snowflake_ms(id) <= i64::MAX,
    ensures
        res as int == now_ms - snowflake_ms(id),
{
    let high = id >> 22u64;
    assert(high <= 0x3ff_ffff_ffff) by (bit_vector)
        requires
            high == id >> 22u64,
    ;
    now_ms - ((high + DISCORD_EPOCH_MS) as i64)
}

/// The answer to `/ping`: the delay in milliseconds.
pub fn ping_description(delay_ms: i64) -> (res: String)
    ensures
        res@ == signed_decimal_spec(delay_ms as int) + " ms"@,
{
    let s = i64_to_decimal(delay_ms);
    concat2(s.as_str(), " ms")
}

} // verus!
