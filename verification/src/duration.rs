//! The few `std::time::Duration` operations the policy code relies on.
use std::time::Duration;

use vstd::prelude::*;

verus! {

/// The whole nanoseconds of a duration, as `Duration::as_nanos` reports them.
pub uninterp spec fn duration_nanos(d: Duration) -> u128;

/// `Duration::as_nanos`: the length of the duration in whole nanoseconds.
#[verifier::external_body]
pub(crate) fn nanos_of(d: Duration) -> (r: u128)
    ensures
        r == duration_nanos(d),
{
    d.as_nanos()
}

/// `Duration::from_nanos`: a duration of exactly `nanos` nanoseconds.
#[verifier::external_body]
pub(crate) fn duration_from_nanos(nanos: u64) -> (d: Duration)
    ensures
        duration_nanos(d) == nanos as u128,
{
    Duration::from_nanos(nanos)
}

/// Whether a duration is zero long.
pub fn duration_is_zero(d: Duration) -> (r: bool)
    ensures
        r == (duration_nanos(d) == 0),
{
    nanos_of(d) == 0
}

} // verus!
