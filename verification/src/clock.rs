//! The system's local wall clock, read through `chrono`.
//!
//! Nothing in this file is proved: `read_local_clock` states what `chrono`
//! documents of the values it hands out, and the rest of the library is
//! verified for every reading that meets that statement.

use vstd::prelude::*;

verus! {

/// One reading of the local wall clock: the day of the week, counted from
/// Monday = 0, and the time of day.
pub(crate) struct Reading {
    pub weekday: u32,
    pub hour: u32,
    pub minute: u32,
    pub second: u32,
}

/// Reads the local wall clock once.
///
/// Converts `std::time::SystemTime::now()` into a `chrono::DateTime<Local>`
/// and reads from it `Datelike::weekday` as `Weekday::num_days_from_monday`,
/// `Timelike::hour`, `Timelike::minute` and `Timelike::second`. `chrono`
/// documents the first as 0 for Monday up to 6 for Sunday and the others as
/// lying in `0..=23`, `0..=59` and `0..=59` (a leap second is shown as
/// second 59). The contract claims these ranges and nothing more: two calls
/// need not agree. The conversion fails only for a system clock set outside
/// the years that `chrono` can represent, or for a time zone file whose
/// offset from UTC is a day or more.
#[verifier::external_body]
pub(crate) fn read_local_clock() -> (reading: Reading)
    ensures
        reading.weekday < 7,
        reading.hour < 24,
        reading.minute < 60,
        reading.second < 60,
{
    let now: chrono::DateTime<chrono::Local> = std::time::SystemTime::now().into();
    Reading {
        weekday: chrono::Datelike::weekday(&now).num_days_from_monday(),
        hour: chrono::Timelike::hour(&now),
        minute: chrono::Timelike::minute(&now),
        second: chrono::Timelike::second(&now),
    }
}

} // verus!
