//! The calls into Tokio and Tower that the library makes itself.
//!
//! Each function here makes one such call. Its contract is what the proofs of
//! this crate take for granted about that call.

use vstd::prelude::*;

verus! {

/// A Tower layer that bounds how many requests run at once.
#[verifier::external_type_specification]
#[verifier::external_body]
pub struct ExGlobalConcurrencyLimitLayer(tower::limit::GlobalConcurrencyLimitLayer);

/// A reading of Tokio's monotonic clock.
#[verifier::external_type_specification]
#[verifier::external_body]
pub struct ExTokioInstant(tokio::time::Instant);

/// Why a Tokio task did not run to completion.
#[verifier::external_type_specification]
#[verifier::external_body]
pub struct ExJoinError(tokio::task::JoinError);

/// How many permits the semaphore of a concurrency layer was made with.
pub uninterp spec fn layer_permits(layer: tower::limit::GlobalConcurrencyLimitLayer) -> nat;

/// The largest permit count that a Tokio semaphore can hold.
pub open spec fn max_permits() -> nat {
    (usize::MAX / 8) as nat
}

/// `tokio::sync::Semaphore::MAX_PERMITS`, which Tokio fixes at
/// `usize::MAX >> 3`.
#[verifier::external_body]
pub(crate) fn semaphore_max_permits() -> (permits: usize)
    ensures
        permits == max_permits(),
{
    tokio::sync::Semaphore::MAX_PERMITS
}

/// `tower::limit::GlobalConcurrencyLimitLayer::new`: a layer whose clones share
/// one Tokio semaphore of `permits` permits.
///
/// The semaphore panics on more permits than it can hold, so those counts are
/// left out. Each call makes a semaphore of its own; that two layers from two
/// calls share no permits is not stated, since a contract speaks of one call.
#[verifier::external_body]
pub(crate) fn concurrency_layer(permits: usize) -> (layer:
    tower::limit::GlobalConcurrencyLimitLayer)
    requires
        permits <= max_permits(),
    ensures
        layer_permits(layer) == permits,
{
    tower::limit::GlobalConcurrencyLimitLayer::new(permits)
}

/// `tokio::time::Instant::now`. The reading depends on the time of the call, so
/// nothing is claimed of it.
#[verifier::external_body]
pub(crate) fn tokio_now() -> tokio::time::Instant {
    tokio::time::Instant::now()
}

/// `tokio::time::Instant::checked_add`: the point `secs` seconds and `nanos`
/// nanoseconds after `origin`, if it lies inside the bounds of Tokio's clock.
///
/// A point that is already held can be held, so no time at all can be added.
/// Where the bounds lie depends on the machine, so nothing else is claimed of
/// whether there is a point. `Duration::new` carries whole seconds out of
/// `nanos` and may overflow then, so such values are left out.
#[verifier::external_body]
pub(crate) fn tokio_checked_add(origin: &tokio::time::Instant, secs: u64, nanos: u32) -> (later:
    Option<tokio::time::Instant>)
    requires
        nanos < 1_000_000_000,
    ensures
        secs == 0 && nanos == 0 ==> later is Some,
{
    origin.checked_add(std::time::Duration::new(secs, nanos))
}

/// `tokio::time::Instant::elapsed`, in nanoseconds. The value depends on the
/// time of the call; what holds of all of them is that a `Duration` counts
/// whole seconds in 64 bits.
#[verifier::external_body]
pub(crate) fn tokio_elapsed_nanos(origin: &tokio::time::Instant) -> (nanos: u128)
    ensures
        nanos <= 18_446_744_073_709_551_615_999_999_999u128,
{
    origin.elapsed().as_nanos()
}

} // verus!
