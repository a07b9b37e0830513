//! The wall clock, read through `chrono`.

use vstd::prelude::*;

verus! {

/// An instant in UTC: whole seconds since 1970-01-01T00:00:00Z and the
/// nanoseconds past that second.
#[derive(Clone, Copy, Debug, PartialEq, Eq, Structural)]
pub struct Timestamp {
    pub secs: i64,
    pub nanos: u32,
}

/// Reads the clock with `chrono::Utc::now` and hands the instant over as the
/// pair that `DateTime::timestamp` and `DateTime::timestamp_subsec_nanos`
/// give for it. The result depends on the machine's clock, so nothing is
/// claimed of it. `Utc::now` panics if the clock is set before 1970.
#[verifier::external_body]
pub(crate) fn now() -> (t: Timestamp) {
    let t = chrono::Utc::now();
    Timestamp { secs: t.timestamp(), nanos: t.timestamp_subsec_nanos() }
}

} // verus!
