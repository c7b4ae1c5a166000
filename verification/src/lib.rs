//! Localised timeline date labels: classification of an event instant
//! against an explicit "now" in a user time zone, locale negotiation, and
//! the message plumbing that turns a classification into a catalog key.

mod text;
pub mod icu;
pub mod backend;
pub mod bucket;
pub mod classify;
pub mod datetime;
pub mod error;
pub mod ffi;
pub mod formatter;
pub mod locale;
pub mod mf2;
pub mod options;
pub mod time;

pub use bucket::TimelineDateBucket;
pub use error::{TimelineDateError, TimelineDateResult};
pub use ffi::TimelineDateFfiError;
pub use formatter::TimelineDateFormatter;
pub use options::{
    FuturePolicy, HourCycle, OldDateTimePolicy, TimelineDateOptions, TimelineDateStyle,
};
