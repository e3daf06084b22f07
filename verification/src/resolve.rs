//! Timestamp resolution: one (access, modification) pair per invocation.
//!
//! Precedence, highest first: a reference file's own pair of timestamps,
//! copied verbatim; an explicit stamp string, resolved to one local-time
//! moment used for both sides; the current clock otherwise.  No input is
//! ever rejected.

use vstd::prelude::*;

use filetime::FileTime;

use crate::clock::current_year;
use crate::clock::filetime_from_unix;
use crate::clock::filetime_now;
use crate::clock::local_epoch_seconds;
use crate::stamp::spec_day;
use crate::stamp::spec_hours;
use crate::stamp::spec_minutes;
use crate::stamp::spec_month;
use crate::stamp::spec_seconds;
use crate::stamp::stamp_fields;
use crate::stamp::year_token_selected;
use crate::stamp::year_token_value;
use crate::stamp::StampFields;

verus! {

/// Year of a stamp string: its explicit year token when the stamp's shape
/// selects one, the current calendar year otherwise (on which nothing can
/// be promised).
pub fn parse_year(stamp: &String) -> (r: i32)
    ensures
        year_token_selected(stamp@) ==> r == year_token_value(stamp@),
{
    let now_year = current_year();
    crate::stamp::parse_year_in(stamp, now_year)
}

/// All six calendar fields of a stamp string, the year falling back to the
/// current calendar year when the stamp carries none.
pub fn resolve_stamp(stamp: &String) -> (f: StampFields)
    ensures
        year_token_selected(stamp@) ==> f.year == year_token_value(stamp@),
        f.month == spec_month(stamp@),
        f.day == spec_day(stamp@),
        f.hour == spec_hours(stamp@),
        f.minute == spec_minutes(stamp@),
        f.second == spec_seconds(stamp@),
        f.wf(),
{
    let now_year = current_year();
    stamp_fields(stamp, now_year)
}

/// Resolves a stamp string to one concrete file timestamp, reading the
/// fields as local time.  Fields that name no representable local moment
/// (a day absent from the month, or a time inside a clock-change gap) fall
/// back to the current time, as an absent stamp would.
pub fn parse_tstamp(stamp: &String) -> FileTime {
    let f = resolve_stamp(stamp);
    match local_epoch_seconds(f.year, f.month, f.day, f.hour, f.minute, f.second) {
        Some(t) => filetime_from_unix(t),
        None => filetime_now(),
    }
}

/// The resolved access and modification timestamps of one invocation;
/// always populated together.
#[derive(Clone, Copy, Debug)]
pub struct TimestampPair {
    pub access: FileTime,
    pub modification: FileTime,
}

/// Produces the timestamp pair one invocation applies to every target.  A
/// reference file's pair (read by the caller, absent when the file is) wins
/// over an explicit stamp string, which wins over the current clock; the two
/// lower tiers set both sides to one and the same moment.
pub fn resolve_timestamp_pair(
    reference: Option<(FileTime, FileTime)>,
    stamp: Option<&String>,
) -> (p: TimestampPair)
    ensures
        match reference {
            Some(rp) => p.access == rp.0 && p.modification == rp.1,
            None => p.access == p.modification,
        },
{
    match reference {
        Some(rp) => TimestampPair { access: rp.0, modification: rp.1 },
        None => {
            let t = match stamp {
                Some(s) => parse_tstamp(s),
                None => filetime_now(),
            };
            TimestampPair { access: t, modification: t }
        },
    }
}

} // verus!
