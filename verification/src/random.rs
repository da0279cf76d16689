//! The source of random bytes.

use vstd::prelude::*;
use rand::Rng;

verus! {

/// Draws a byte from the thread-local generator of the `rand` crate: it
/// calls `rand::thread_rng()` and then `Rng::gen::<u8>()` on the generator.
///
/// Nothing is claimed of the byte: two calls may return different values.
/// The generator is seeded from the operating system when a thread first
/// uses it, and `rand` panics if that seeding fails.
#[verifier::external_body]
pub(crate) fn random_byte() -> (byte: u8) {
    let mut rng = rand::thread_rng();
    rng.gen::<u8>()
}

} // verus!
