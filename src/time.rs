//! Durations of std, built from whole units.

use vstd::prelude::*;

use std::time::Duration;

verus! {

/// The duration of `secs` seconds.
pub uninterp spec fn duration_of_secs(secs: u64) -> Duration;

/// The duration of `millis` milliseconds.
pub uninterp spec fn duration_of_millis(millis: u64) -> Duration;

/// Relies on `Duration::from_secs`: the result depends on the count alone.
#[verifier::external_body]
pub(crate) fn duration_from_secs(secs: u64) -> (r: Duration)
    ensures
        r == duration_of_secs(secs),
{
    Duration::from_secs(secs)
}

/// Relies on `Duration::from_millis`: the result depends on the count alone.
#[verifier::external_body]
pub(crate) fn duration_from_millis(millis: u64) -> (r: Duration)
    ensures
        r == duration_of_millis(millis),
{
    Duration::from_millis(millis)
}

} // verus!
