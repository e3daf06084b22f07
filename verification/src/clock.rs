//! Trusted boundary: the wall clock, the local calendar, and the opaque
//! file-timestamp value.
//!
//! Everything here either reads the clock or the machine's time zone, or
//! moves plain values into and out of `filetime::FileTime`.  Nothing about a
//! clock reading or a local-time conversion can be pinned down, so these
//! wrappers promise nothing; the functions around them are verified for
//! every value that can come back.

use vstd::prelude::*;

use chrono::Datelike;
use chrono::TimeZone;
use filetime::FileTime;

verus! {

/// A point in time as the filesystem stores it; opaque here, carried
/// between the callers that produce one and the primitives that apply it.
#[verifier::external_type_specification]
#[verifier::external_body]
pub struct ExFileTime(FileTime);

/// Relies on chrono's `Utc::now` and `Datelike::year`: the current calendar
/// year, whatever the clock says.
#[verifier::external_body]
pub(crate) fn current_year() -> i32 {
    chrono::Utc::now().year()
}

/// Relies on chrono's `TimeZone::with_ymd_and_hms` on `Local`, and on
/// `MappedLocalTime::earliest` and `DateTime::timestamp`: the Unix seconds
/// of the given local calendar fields, or `None` when the machine's time
/// zone has no such moment.  An ambiguous local time takes its earliest
/// reading.
#[verifier::external_body]
pub(crate) fn local_epoch_seconds(
    year: i32,
    month: u32,
    day: u32,
    hour: u32,
    minute: u32,
    second: u32,
) -> Option<i64> {
    match chrono::Local.with_ymd_and_hms(year, month, day, hour, minute, second).earliest() {
        Some(dt) => Some(dt.timestamp()),
        None => None,
    }
}

/// Relies on filetime's `FileTime::from_unix_time`: a file timestamp from
/// whole seconds relative to the Unix epoch.
#[verifier::external_body]
pub(crate) fn filetime_from_unix(seconds: i64) -> FileTime {
    FileTime::from_unix_time(seconds, 0)
}

/// Relies on filetime's `FileTime::now`: the current system time as a file
/// timestamp.
#[verifier::external_body]
pub(crate) fn filetime_now() -> FileTime {
    FileTime::now()
}

} // verus!
