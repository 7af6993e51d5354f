//! Durations as whole nanoseconds.

use std::time::Duration;
use vstd::prelude::*;

verus! {

/// The length of a duration in nanoseconds: what `Duration::as_nanos` returns.
pub uninterp spec fn nanos_of(d: Duration) -> nat;

/// `Duration::as_nanos` gives the whole length of the duration in nanoseconds.
pub assume_specification[ Duration::as_nanos ](d: &Duration) -> (n: u128)
    ensures
        n == nanos_of(*d),
;

/// `Duration::from_nanos` makes the duration that lasts exactly `nanos`
/// nanoseconds.
pub assume_specification[ Duration::from_nanos ](nanos: u64) -> (d: Duration)
    ensures
        nanos_of(d) == nanos,
;

/// `Duration` is `Copy`: its `clone` hands back the same duration.
pub assume_specification[ <Duration as Clone>::clone ](d: &Duration) -> (r: Duration)
    ensures
        r == *d,
;

} // verus!
