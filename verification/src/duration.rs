//! Durations as a number of nanoseconds.
use vstd::prelude::*;

verus! {

/// What `Duration::as_nanos` gives for a duration: its length in nanoseconds.
pub uninterp spec fn duration_nanos(d: std::time::Duration) -> nat;

/// Specifies `Duration::clone`.
///
/// Trusted: `Duration` is `Copy`; its clone is the same duration.
pub assume_specification[ <std::time::Duration as Clone>::clone ](d: &std::time::Duration) -> (r:
    std::time::Duration)
    ensures
        r == *d,
;

/// Calls `Duration::as_nanos`.
///
/// Trusted: the result is the length of `d` in nanoseconds, the value that
/// `duration_nanos` names.
#[verifier::external_body]
pub(crate) fn duration_as_nanos(d: &std::time::Duration) -> (r: u128)
    ensures
        r == duration_nanos(*d),
{
    d.as_nanos()
}

/// Calls `Duration::from_secs`.
///
/// Trusted: the standard library documents a duration of `secs` whole seconds.
#[verifier::external_body]
pub(crate) fn duration_from_secs(secs: u64) -> (r: std::time::Duration)
    ensures
        duration_nanos(r) == secs * 1_000_000_000,
{
    std::time::Duration::from_secs(secs)
}

/// Calls `Duration::from_millis`.
///
/// Trusted: the standard library documents a duration of `millis` milliseconds.
#[verifier::external_body]
pub(crate) fn duration_from_millis(millis: u64) -> (r: std::time::Duration)
    ensures
        duration_nanos(r) == millis * 1_000_000,
{
    std::time::Duration::from_millis(millis)
}

/// Calls `Duration::as_millis`.
///
/// Trusted: the standard library documents the number of whole milliseconds.
#[verifier::external_body]
pub(crate) fn duration_as_millis(d: &std::time::Duration) -> (r: u128)
    ensures
        r == duration_nanos(*d) / 1_000_000,
{
    d.as_millis()
}

} // verus!
