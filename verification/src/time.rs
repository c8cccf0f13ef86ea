//! Calendar time as the device takes it.
//!
//! The device reads a point in time as six calendar fields of its own local
//! calendar.  It knows no time zone and no fraction of a second.

use vstd::prelude::*;

verus! {

/// `chrono::NaiveDateTime`, a date and time without a time zone.  Nothing
/// of its inside is known here; its calendar fields are read through the
/// calls below.
#[verifier::external_type_specification]
#[verifier::external_body]
pub struct ExNaiveDateTime(chrono::NaiveDateTime);

/// A point in time in the device's local calendar.
#[derive(Clone, Copy, Debug, PartialEq, Eq)]
pub struct DeviceTime {
    pub year: u32,
    pub month: u32,
    pub day: u32,
    pub hour: u32,
    pub minute: u32,
    pub second: u32,
}

/// The year field for calendar year `year`: the year itself, and for a year
/// before year zero its two's complement in 32 bits.
pub open spec fn year_field(year: i32) -> u32 {
    if year >= 0 {
        year as u32
    } else {
        (year + 0x1_0000_0000) as u32
    }
}

impl DeviceTime {
    /// Whether every field but the year lies in the range that a calendar
    /// gives it.
    pub open spec fn is_calendar(self) -> bool {
        &&& 1 <= self.month <= 12
        &&& 1 <= self.day <= 31
        &&& self.hour <= 23
        &&& self.minute <= 59
        &&& self.second <= 59
    }

    /// The time with the given fields.  No field is checked.
    pub fn new(year: i32, month: u32, day: u32, hour: u32, minute: u32, second: u32) -> (t: Self)
        ensures
            t == (DeviceTime { year: year_field(year), month, day, hour, minute, second }),
    {
        let year_bits: u32 = if year >= 0 {
            year as u32
        } else {
            u32::MAX - ((-(year + 1)) as u32)
        };
        DeviceTime { year: year_bits, month, day, hour, minute, second }
    }

    /// The calendar fields of `t`, the fraction of its second dropped.
    pub fn from_naive(t: &chrono::NaiveDateTime) -> (r: Self)
        ensures
            r == calendar_of(*t),
            r.is_calendar(),
    {
        DeviceTime::new(year_of(t), month_of(t), day_of(t), hour_of(t), minute_of(t), second_of(t))
    }
}

/// The calendar year of `t`, as `chrono` reads it.
pub uninterp spec fn year_in(t: chrono::NaiveDateTime) -> i32;

/// The month of `t`, as `chrono` reads it.
pub uninterp spec fn month_in(t: chrono::NaiveDateTime) -> u32;

/// The day of the month of `t`, as `chrono` reads it.
pub uninterp spec fn day_in(t: chrono::NaiveDateTime) -> u32;

/// The hour of `t`, as `chrono` reads it.
pub uninterp spec fn hour_in(t: chrono::NaiveDateTime) -> u32;

/// The minute of `t`, as `chrono` reads it.
pub uninterp spec fn minute_in(t: chrono::NaiveDateTime) -> u32;

/// The second of `t`, as `chrono` reads it.
pub uninterp spec fn second_in(t: chrono::NaiveDateTime) -> u32;

/// The device's reading of `t`: the six fields that `chrono` gives it.
pub open spec fn calendar_of(t: chrono::NaiveDateTime) -> DeviceTime {
    DeviceTime {
        year: year_field(year_in(t)),
        month: month_in(t),
        day: day_in(t),
        hour: hour_in(t),
        minute: minute_in(t),
        second: second_in(t),
    }
}

/// `chrono::Datelike::year` of a `NaiveDateTime`.  Trusted: the result
/// depends on the value alone.
#[verifier::external_body]
fn year_of(t: &chrono::NaiveDateTime) -> (year: i32)
    ensures
        year == year_in(*t),
{
    chrono::Datelike::year(t)
}

/// `chrono::Datelike::month` of a `NaiveDateTime`.  Trusted: the month
/// counts from 1 to 12.
#[verifier::external_body]
fn month_of(t: &chrono::NaiveDateTime) -> (month: u32)
    ensures
        month == month_in(*t),
        1 <= month <= 12,
{
    chrono::Datelike::month(t)
}

/// `chrono::Datelike::day` of a `NaiveDateTime`.  Trusted: the day of the
/// month counts from 1 to 31.
#[verifier::external_body]
fn day_of(t: &chrono::NaiveDateTime) -> (day: u32)
    ensures
        day == day_in(*t),
        1 <= day <= 31,
{
    chrono::Datelike::day(t)
}

/// `chrono::Timelike::hour` of a `NaiveDateTime`.  Trusted: the hour lies
/// between 0 and 23.
#[verifier::external_body]
fn hour_of(t: &chrono::NaiveDateTime) -> (hour: u32)
    ensures
        hour == hour_in(*t),
        hour <= 23,
{
    chrono::Timelike::hour(t)
}

/// `chrono::Timelike::minute` of a `NaiveDateTime`.  Trusted: the minute
/// lies between 0 and 59.
#[verifier::external_body]
fn minute_of(t: &chrono::NaiveDateTime) -> (minute: u32)
    ensures
        minute == minute_in(*t),
        minute <= 59,
{
    chrono::Timelike::minute(t)
}

/// `chrono::Timelike::second` of a `NaiveDateTime`.  Trusted: the second
/// lies between 0 and 59; a leap second counts as second 59.
#[verifier::external_body]
fn second_of(t: &chrono::NaiveDateTime) -> (second: u32)
    ensures
        second == second_in(*t),
        second <= 59,
{
    chrono::Timelike::second(t)
}

} // verus!
