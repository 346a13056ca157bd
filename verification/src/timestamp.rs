use vstd::prelude::*;

verus! {

/// The smallest and the largest year of chrono's calendar dates.
pub open spec fn min_calendar_year() -> int {
    -262143
}

pub open spec fn max_calendar_year() -> int {
    262142
}

/// Leap years of the proleptic Gregorian calendar (`%` is Euclidean here, so
/// this holds for years before year 1 as well).
pub open spec fn is_leap_year(year: int) -> bool {
    year % 4 == 0 && (year % 100 != 0 || year % 400 == 0)
}

pub open spec fn days_in_month(year: int, month: int) -> int {
    if month == 2 {
        if is_leap_year(year) { 29 } else { 28 }
    } else if month == 4 || month == 6 || month == 9 || month == 11 {
        30
    } else {
        31
    }
}

/// A calendar date and a time of day (without leap second) that chrono can represent.
pub open spec fn is_valid_datetime(year: int, month: int, day: int, hour: int, minute: int, second: int) -> bool {
    &&& min_calendar_year() <= year <= max_calendar_year()
    &&& 1 <= month <= 12
    &&& 1 <= day <= days_in_month(year, month)
    &&& 0 <= hour < 24
    &&& 0 <= minute < 60
    &&& 0 <= second < 60
}

pub open spec fn digit_char(d: nat) -> char {
    (d + 48) as char
}

/// The decimal digits of a natural number, without leading zeros.
pub open spec fn decimal(n: nat) -> Seq<char>
    decreases n,
{
    if n < 10 {
        seq![digit_char(n)]
    } else {
        decimal(n / 10).push(digit_char(n % 10))
    }
}

/// `s` with zeros put in front until it has at least `width` characters.
pub open spec fn zero_pad(s: Seq<char>, width: nat) -> Seq<char>
    decreases width - s.len(),
{
    if s.len() >= width {
        s
    } else {
        zero_pad(seq!['0'] + s, width)
    }
}

/// Two-digit field (`%m`, `%d`, `%H`, `%M`, `%S`).
pub open spec fn two_digits(n: nat) -> Seq<char> {
    zero_pad(decimal(n), 2)
}

/// The `%Y` field: four digits, zero-padded, for years 0 to 9999; other years
/// carry a sign and are zero-padded to four digits after it.
pub open spec fn year_field(year: int) -> Seq<char> {
    if 0 <= year <= 9999 {
        zero_pad(decimal(year as nat), 4)
    } else if year > 9999 {
        seq!['+'] + decimal(year as nat)
    } else {
        seq!['-'] + zero_pad(decimal((-year) as nat), 4)
    }
}

/// The text of the pattern `%Y%m%d_%H%M%S`.
pub open spec fn compact_stamp(year: int, month: nat, day: nat, hour: nat, minute: nat, second: nat) -> Seq<char> {
    year_field(year) + two_digits(month) + two_digits(day) + seq!['_'] + two_digits(hour)
        + two_digits(minute) + two_digits(second)
}

/// chrono: `NaiveDate::from_ymd_opt`, then `NaiveDate::and_hms_opt`, then
/// `NaiveDateTime::format("%Y%m%d_%H%M%S")` turned into a `String`.  Claimed:
/// a date-time exists exactly for the valid calendar dates and times of day that
/// chrono's documentation describes, and its text is the documented
/// zero-padded field layout.
#[verifier::external_body]
fn format_compact_datetime(year: i32, month: u32, day: u32, hour: u32, minute: u32, second: u32) -> (stamp: Option<String>)
    ensures
        stamp is Some <==> is_valid_datetime(year as int, month as int, day as int, hour as int, minute as int, second as int),
        stamp matches Some(s) ==> s@ == compact_stamp(year as int, month as nat, day as nat, hour as nat, minute as nat, second as nat),
{
    let date = chrono::NaiveDate::from_ymd_opt(year, month, day)?;
    let moment = date.and_hms_opt(hour, minute, second)?;
    Some(moment.format("%Y%m%d_%H%M%S").to_string())
}

/// The file name of a screenshot taken at the given timestamp text.
pub open spec fn screenshot_file_name(stamp: Seq<char>) -> Seq<char> {
    "screenshot_"@ + stamp + ".png"@
}

/// `"screenshot_" + stamp + ".png"`.
pub fn screenshot_filename(stamp: &str) -> (name: String)
    ensures
        name@ == screenshot_file_name(stamp@),
{
    let name = "screenshot_".to_owned();
    let name = name.concat(stamp);
    name.concat(".png")
}

/// The screenshot file name for a local date and time, with the timestamp in the
/// form `YYYYmmdd_HHMMSS`; `None` when the date or time does not exist.
pub fn screenshot_filename_at(year: i32, month: u32, day: u32, hour: u32, minute: u32, second: u32) -> (name: Option<String>)
    ensures
        name is Some <==> is_valid_datetime(year as int, month as int, day as int, hour as int, minute as int, second as int),
        name matches Some(n) ==> n@ == screenshot_file_name(
            compact_stamp(year as int, month as nat, day as nat, hour as nat, minute as nat, second as nat),
        ),
{
    match format_compact_datetime(year, month, day, hour, minute, second) {
        Some(stamp) => Some(screenshot_filename(stamp.as_str())),
        None => None,
    }
}

} // verus!
