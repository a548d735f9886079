//! Calendar dates.
//!
//! Dates are `chrono::NaiveDate` values: proleptic-Gregorian calendar dates
//! that are valid by construction. The library stores and hands them on
//! without looking inside, so the verifier treats the type as opaque and two
//! dates are related in contracts by equality alone.

use chrono::{Local, NaiveDate};
use vstd::prelude::*;

verus! {

/// Makes `chrono::NaiveDate` known to the verifier as an opaque type.
#[verifier::external_type_specification]
#[verifier::external_body]
pub struct ExNaiveDate(chrono::NaiveDate);

/// Reads the current date in the machine's local time zone.
///
/// Calls `chrono::Local::now`, takes its `naive_local` date-time and converts
/// it with `NaiveDate::from`. The answer depends on the clock and on the time
/// zone the machine is set to, so nothing is claimed of it: callers must be
/// correct for every date. chrono itself gives up (with a panic) when the
/// system clock reads a time before 1970 or the zone offset pushes the local
/// time outside the range a `NaiveDateTime` can hold.
#[verifier::external_body]
pub(crate) fn local_today() -> (today: NaiveDate) {
    NaiveDate::from(Local::now().naive_local())
}

} // verus!
