use std::time::{Duration, Instant};
use vstd::prelude::*;

verus! {

/// `std::time::Instant`: a reading of the monotonic clock. Nothing inside
/// it is visible here; [`instant_nanos`] stands for its place in time.
#[verifier::external_type_specification]
#[verifier::external_body]
pub struct ExInstant(Instant);

/// The place of an instant on the time line of its clock, in nanoseconds
/// counted from an origin that the clock fixes. Of two instants, the later
/// one has the greater place.
pub uninterp spec fn instant_nanos(t: Instant) -> int;

/// The length of a duration in nanoseconds: what `Duration::as_nanos`
/// returns.
pub uninterp spec fn duration_nanos(d: Duration) -> nat;

/// Calls `Instant::checked_duration_since`, which is documented to return
/// the time elapsed from `earlier` to `now`, or `None` if `earlier` is later
/// than `now`.
#[verifier::external_body]
pub(crate) fn checked_duration_since(now: Instant, earlier: Instant) -> (elapsed: Option<Duration>)
    ensures
        elapsed is None <==> instant_nanos(now) < instant_nanos(earlier),
        elapsed matches Some(d) ==> duration_nanos(d) == instant_nanos(now) - instant_nanos(
            earlier,
        ),
{
    now.checked_duration_since(earlier)
}

/// Calls `Duration::as_nanos`, which is documented to return the total
/// number of nanoseconds that the duration holds.
#[verifier::external_body]
pub(crate) fn duration_as_nanos(d: Duration) -> (n: u128)
    ensures
        n == duration_nanos(d),
{
    d.as_nanos()
}

/// Calls `Duration::from_secs`, which is documented to make the duration of
/// the given number of whole seconds.
#[verifier::external_body]
pub(crate) fn duration_from_secs(secs: u64) -> (d: Duration)
    ensures
        duration_nanos(d) == secs * 1_000_000_000,
{
    Duration::from_secs(secs)
}

} // verus!
