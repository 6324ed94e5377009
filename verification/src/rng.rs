//! The dice of the game: uniform draws from the thread-local generator of
//! the `rand` crate.  Nothing is known of a draw but the range it lies in.
use vstd::prelude::*;

verus! {

/// The thread-local random number generator of `rand`, carried as an opaque
/// value.
#[verifier::external_type_specification]
#[verifier::external_body]
pub struct ExThreadRng(rand::rngs::ThreadRng);

/// Calls `rand::thread_rng`, which hands out a handle on the lazily seeded
/// generator of the current thread.  Nothing is claimed of the handle.  The
/// source panics when the operating system cannot seed the generator, which
/// no condition on the arguments can rule out.
#[verifier::external_body]
pub(crate) fn thread_rng() -> rand::rngs::ThreadRng {
    rand::thread_rng()
}

/// Calls `Rng::gen_range` with the half-open range `low..high` on `i32`.
/// The source of `rand` samples uniformly from `[low, high)` and panics on an
/// empty range, so the contract asks `low < high` and claims only that the
/// draw lies in the range: which value comes back rests on chance.
#[verifier::external_body]
pub(crate) fn gen_range(rng: &mut rand::rngs::ThreadRng, low: i32, high: i32) -> (r: i32)
    requires
        low < high,
    ensures
        low <= r < high,
{
    rand::Rng::gen_range(rng, low..high)
}

} // verus!
