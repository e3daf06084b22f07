//! Timestamp resolution for a `touch`-style utility.
//!
//! The heart of the crate is the stamp-string parser: a compact
//! `[[CC]YY]MMDDhhmm[.ss]` string is cut into positional character windows,
//! one per calendar field, and every window that is missing, non-numeric or
//! out of range falls back to that field's own default — no input is ever
//! rejected.  Around it stand the two decisions a `touch` run makes once per
//! invocation: which (access, modification) pair to apply, and which half of
//! that pair to write.  The filesystem itself — reading a reference file's
//! metadata, writing times, creating files — is left to the caller.

pub mod clock;
pub mod digits;
pub mod laws;
pub mod mode;
pub mod resolve;
pub mod stamp;

pub use mode::resolve_update_mode;
pub use mode::UpdateMode;
pub use resolve::parse_tstamp;
pub use resolve::parse_year;
pub use resolve::resolve_stamp;
pub use resolve::resolve_timestamp_pair;
pub use resolve::TimestampPair;
pub use stamp::parse_day;
pub use stamp::parse_hours;
pub use stamp::parse_minutes;
pub use stamp::parse_month;
pub use stamp::parse_seconds;
pub use stamp::StampFields;
