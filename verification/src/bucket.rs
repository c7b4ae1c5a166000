//! The classification a timeline event falls into.

use vstd::prelude::*;

verus! {

/// Where an event lands relative to "now", as the feed style words it,
/// plus the fixed buckets of the detail and audit styles.
#[derive(Debug, Clone, Copy, PartialEq, Eq, Hash, Structural)]
pub enum TimelineDateBucket {
    JustNow,
    MinutesAgo { minutes: u32 },
    Today,
    Yesterday,
    Weekday,
    SameYear,
    Older,
    Future,
    Detail,
    Audit,
}

} // verus!
