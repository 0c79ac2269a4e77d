//! Trusted access to the clock, to fresh identifiers and to randomness.
//!
//! Each function here wraps one call into an outside crate.  Verus
//! believes the stated contracts; nothing is promised that the outside
//! crate's documentation does not give.  No determinism is claimed of
//! any result.

use vstd::prelude::*;

verus! {

/// Relies on chrono::Utc::now: the current wall-clock time as Unix
/// seconds.  Nothing is promised of the value.  The call can panic
/// if the system clock reads before 1970 — an environmental failure,
/// not one any input can cause.
#[verifier::external_body]
pub(crate) fn now_seconds() -> i64 {
    chrono::Utc::now().timestamp()
}

/// Relies on uuid::Uuid::new_v4 and its Display form: a fresh random
/// identifier rendered in the 36-character hyphenated form.  The
/// call can panic if the operating system's entropy source fails —
/// environmental, not input-dependent.
#[verifier::external_body]
pub(crate) fn new_id() -> (r: String)
    ensures
        r@.len() == 36,
{
    uuid::Uuid::new_v4().to_string()
}

#[verifier::external_type_specification]
#[verifier::external_body]
pub struct ExStdRng(rand::rngs::StdRng);

/// Relies on rand::SeedableRng::from_entropy: a generator seeded from
/// the system entropy source.  The call can panic if that source
/// fails — environmental, not input-dependent.
#[verifier::external_body]
pub(crate) fn rng_from_entropy() -> rand::rngs::StdRng {
    rand::SeedableRng::from_entropy()
}

/// Relies on rand::SeedableRng::seed_from_u64: a generator seeded from
/// the given word.
#[verifier::external_body]
pub(crate) fn rng_seed_from_u64(seed: u64) -> rand::rngs::StdRng {
    rand::SeedableRng::seed_from_u64(seed)
}

/// Relies on rand::Rng::gen_range over `lo..hi`: the sample lies in
/// `[lo, hi)`; the call panics on an empty range, which the
/// precondition rules out.
#[verifier::external_body]
pub(crate) fn rng_range_i64(rng: &mut rand::rngs::StdRng, lo: i64, hi: i64) -> (r: i64)
    requires
        lo < hi,
    ensures
        lo <= r < hi,
{
    rand::Rng::gen_range(rng, lo..hi)
}

/// Relies on rand::Rng::gen_range over `lo..hi`: the sample lies in
/// `[lo, hi)`; the call panics on an empty range, which the
/// precondition rules out.
#[verifier::external_body]
pub(crate) fn rng_range_u64(rng: &mut rand::rngs::StdRng, lo: u64, hi: u64) -> (r: u64)
    requires
        lo < hi,
    ensures
        lo <= r < hi,
{
    rand::Rng::gen_range(rng, lo..hi)
}

} // verus!
