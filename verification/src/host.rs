//! Trusted boundary to the host machine: the monotonic clock used to
//! pace timer decay, and the random number generator behind `RND`.

use std::time::Instant;
use vstd::prelude::*;

verus! {

/// `std::time::Instant`, opaque to the verifier: a point on the host's
/// monotonic clock.
#[verifier::external_type_specification]
#[verifier::external_body]
pub struct ExInstant(Instant);

/// Relies on `std::time::Instant::now`: a fresh reading of the host's
/// monotonic clock. Its value depends on the clock, so nothing is
/// assumed of it.
#[verifier::external_body]
pub(crate) fn now_instant() -> Instant {
    Instant::now()
}

/// Relies on `std::time::Instant::elapsed` and
/// `std::time::Duration::as_micros`: the wall-clock time since `t`, in
/// microseconds, truncated to 64 bits. The value depends on the clock,
/// so nothing is assumed of it.
#[verifier::external_body]
pub(crate) fn elapsed_micros(t: &Instant) -> u64 {
    t.elapsed().as_micros() as u64
}

/// Relies on `rand::random`: a random byte drawn from the thread-local
/// generator. The value depends on chance, so nothing is assumed of it.
#[verifier::external_body]
pub(crate) fn random_byte() -> u8 {
    rand::random::<u8>()
}

} // verus!
