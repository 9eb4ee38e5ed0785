//! Plain-value quantities that register values are made of: lengths, light
//! levels, time spans and civil date-times.
use vstd::prelude::*;

verus! {

/// A length in whole millimetres.
#[derive(Debug, Clone, Copy, PartialEq, Eq, Structural)]
pub struct Length {
    pub millimeters: u32,
}

/// A light level in whole lux counts.
#[derive(Debug, Clone, Copy, PartialEq, Eq, Structural)]
pub struct Luminance {
    pub lux: u32,
}

/// A signed time span, counted in milliseconds.
#[derive(Debug, Clone, Copy, PartialEq, Eq, Structural)]
pub struct Span {
    pub milliseconds: i64,
}

/// A non-negative duration, counted in whole milliseconds.
#[derive(Debug, Clone, Copy, PartialEq, Eq, Structural)]
pub struct Duration {
    pub milliseconds: u64,
}

/// A civil (time-zone free) date and time of day, to the second.
#[derive(Debug, Clone, Copy, PartialEq, Eq, Structural)]
pub struct DateTime {
    pub year: i16,
    pub month: i8,
    pub day: i8,
    pub hour: i8,
    pub minute: i8,
    pub second: i8,
}

/// Gregorian leap years.
pub open spec fn is_leap_year(year: int) -> bool {
    year % 4 == 0 && (year % 100 != 0 || year % 400 == 0)
}

/// Number of days in `month` of `year`.
pub open spec fn days_in_month(year: int, month: int) -> int {
    if month == 2 {
        if is_leap_year(year) { 29 } else { 28 }
    } else if month == 4 || month == 6 || month == 9 || month == 11 {
        30
    } else {
        31
    }
}

/// The components name an existing date (years -9999 to 9999) and time of
/// day.
pub open spec fn is_valid_datetime(
    year: int,
    month: int,
    day: int,
    hour: int,
    minute: int,
    second: int,
) -> bool {
    &&& -9999 <= year <= 9999
    &&& 1 <= month <= 12
    &&& 1 <= day <= days_in_month(year, month)
    &&& 0 <= hour <= 23
    &&& 0 <= minute <= 59
    &&& 0 <= second <= 59
}

#[verifier::external_type_specification]
#[verifier::external_body]
pub struct ExJiffError(jiff::Error);

/// Relies on `jiff::civil::DateTime::new`: it fails exactly when the
/// components name no date in -9999..=9999 or no time of day, and otherwise
/// builds the date-time whose getters report the components back.
#[verifier::external_body]
pub(crate) fn civil_datetime(
    year: i16,
    month: i8,
    day: i8,
    hour: i8,
    minute: i8,
    second: i8,
) -> (r: Result<DateTime, jiff::Error>)
    ensures
        r is Ok <==> is_valid_datetime(
            year as int,
            month as int,
            day as int,
            hour as int,
            minute as int,
            second as int,
        ),
        r is Ok ==> r->Ok_0 == (DateTime { year, month, day, hour, minute, second }),
{
    match jiff::civil::DateTime::new(year, month, day, hour, minute, second, 0) {
        Ok(dt) => Ok(DateTime {
            year: dt.year(),
            month: dt.month(),
            day: dt.day(),
            hour: dt.hour(),
            minute: dt.minute(),
            second: dt.second(),
        }),
        Err(e) => Err(e),
    }
}

} // verus!
