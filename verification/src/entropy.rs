//! The one source of chance: a byte from the `rand` crate.

use vstd::prelude::*;

verus! {

/// Draws a byte with `rand::random::<u8>()`, which samples the thread-local
/// generator that `rand` seeds from the operating system. Trusted, and
/// nothing is claimed of the byte: two calls may differ, and every value may
/// come back.
#[verifier::external_body]
pub(crate) fn random_byte() -> (byte: u8) {
    rand::random::<u8>()
}

} // verus!
