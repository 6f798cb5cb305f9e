//! Identifiers, clock readings and calendar labels, obtained from the `uuid`
//! and `chrono` crates. The contracts of the functions here describe what
//! those crates do; they are taken as given, not proved.
use vstd::prelude::*;
use crate::text::{decimal_text, digit_char};

verus! {

/// A lowercase hexadecimal digit.
pub open spec fn is_lower_hex(c: char) -> bool {
    ('0' <= c && c <= '9') || ('a' <= c && c <= 'f')
}

/// The hyphenated textual form of a UUID: 36 characters, hyphens at
/// positions 8, 13, 18 and 23, lowercase hexadecimal digits elsewhere.
pub open spec fn is_hyphenated_uuid(s: Seq<char>) -> bool {
    &&& s.len() == 36
    &&& forall|i: int|
        0 <= i < 36 ==> if i == 8 || i == 13 || i == 18 || i == 23 {
            #[trigger] s[i] == '-'
        } else {
            is_lower_hex(s[i])
        }
}

/// The first day that `chrono::NaiveDate` can hold (-262143-01-01), counted
/// with 0001-01-01 as day 1.
pub open spec fn first_calendar_day() -> int {
    -95746129
}

/// The last day that `chrono::NaiveDate` can hold (262142-12-31).
pub open spec fn last_calendar_day() -> int {
    95745399
}

pub open spec fn is_calendar_day(d: int) -> bool {
    first_calendar_day() <= d <= last_calendar_day()
}

/// The proleptic Gregorian (year, month, day) of the date numbered `n`,
/// day 1 being 0001-01-01 (the civil-from-days conversion over 400-year eras).
pub open spec fn civil_date(n: int) -> (int, int, int) {
    let z = n + 305;
    let era = z / 146097;
    let doe = z - era * 146097;
    let yoe = (doe - doe / 1460 + doe / 36524 - doe / 146096) / 365;
    let doy = doe - (365 * yoe + yoe / 4 - yoe / 100);
    let mp = (5 * doy + 2) / 153;
    let d = doy - (153 * mp + 2) / 5 + 1;
    let m = if mp < 10 { mp + 3 } else { mp - 9 };
    let y = yoe + era * 400;
    (if m <= 2 { y + 1 } else { y }, m, d)
}

/// Two decimal digits of `v < 100`.
pub open spec fn two_digits(v: int) -> Seq<char> {
    seq![digit_char((v / 10) as nat), digit_char((v % 10) as nat)]
}

/// A year as `chrono` writes it: four digits for years 0 to 9999, otherwise
/// a sign followed by at least four digits.
pub open spec fn year_text(y: int) -> Seq<char> {
    if 0 <= y <= 9999 {
        two_digits(y / 100) + two_digits(y % 100)
    } else {
        let a: nat = if y < 0 { (-y) as nat } else { y as nat };
        let digits = decimal_text(a);
        let zeros = if digits.len() < 4 { (4 - digits.len()) as nat } else { 0nat };
        seq![if y < 0 { '-' } else { '+' }] + Seq::new(zeros, |i: int| '0') + digits
    }
}

/// The `%Y-%m-%d` text of the date numbered `n`.
pub open spec fn calendar_date_text(n: int) -> Seq<char> {
    let (y, m, d) = civil_date(n);
    year_text(y) + "-"@ + two_digits(m) + "-"@ + two_digits(d)
}

/// The RFC 3339 text of an instant in UTC, as `chrono` writes it: the date
/// of some day from 1970-01-01 on, "T", the time of day (at least eight
/// characters), and the offset "+00:00".
pub open spec fn is_utc_rfc3339(s: Seq<char>) -> bool {
    exists|day: int| {
        let date = #[trigger] calendar_date_text(day);
        &&& unix_epoch_day() <= day <= last_calendar_day()
        &&& s.len() >= date.len() + 15
        &&& s.take(date.len() as int) == date
        &&& s[date.len() as int] == 'T'
        &&& s.skip(s.len() - 6) == "+00:00"@
    }
}

/// Calls `uuid::Uuid::new_v4()` and formats it with `to_string()`. The UUID
/// is random; the contract claims only the shape of its text, which the
/// crate's `Display` impl writes as lowercase hyphenated hexadecimal.
#[verifier::external_body]
pub fn fresh_uuid_text() -> (s: String)
    ensures
        is_hyphenated_uuid(s@),
{
    uuid::Uuid::new_v4().to_string()
}

/// Calls `chrono::Utc::now().to_rfc3339()`. The instant depends on the
/// clock, so only the form of the text is claimed: `write_rfc3339` writes the
/// date, "T", hours, minutes and seconds (with a fraction when there is one)
/// and the zero offset as "+00:00". The crate panics when the clock reads
/// before 1970, so the date is not earlier.
#[verifier::external_body]
pub fn now_rfc3339() -> (s: String)
    ensures
        is_utc_rfc3339(s@),
{
    chrono::Utc::now().to_rfc3339()
}

/// The number of 1970-01-01, the first day `chrono::Utc::now` can report.
pub open spec fn unix_epoch_day() -> int {
    719163
}

/// Calls `chrono::Utc::now().date_naive()` and returns its day number from
/// `chrono::Datelike::num_days_from_ce`. The date depends on the clock; the
/// contract claims only that it is a date `NaiveDate` can hold and not
/// before 1970-01-01, since `Utc::now` panics (as the crate's `expect` says)
/// when the system clock reads an earlier time.
#[verifier::external_body]
pub fn today_day_number() -> (d: i32)
    ensures
        unix_epoch_day() <= d <= last_calendar_day(),
{
    chrono::Datelike::num_days_from_ce(&chrono::Utc::now().date_naive())
}

/// Builds the `chrono::NaiveDate` numbered `day` with
/// `NaiveDate::from_num_days_from_ce_opt`, adds `chrono::TimeDelta::days(delta)`
/// and formats the sum with `to_string()`, whose `Display` impl writes the
/// year (four digits, or signed beyond 0..=9999), the month and the day.
/// Both dates must be ones that `NaiveDate` can hold (otherwise the crate
/// panics).
#[verifier::external_body]
pub fn shifted_date_label(day: i32, delta: i64) -> (s: String)
    requires
        is_calendar_day(day as int),
        is_calendar_day(day + delta),
    ensures
        s@ == calendar_date_text(day + delta),
{
    (chrono::NaiveDate::from_num_days_from_ce_opt(day).unwrap() + chrono::TimeDelta::days(delta)).to_string()
}

} // verus!
