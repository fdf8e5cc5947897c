//! The source of random bytes.

use rand::Rng;
use vstd::prelude::*;

verus! {

/// Draws one byte from `rand::thread_rng()` with `Rng::gen`. Any byte may
/// come back, and two calls need not agree: nothing is claimed of the result.
#[verifier::external_body]
pub(crate) fn random_byte() -> (byte: u8) {
    rand::thread_rng().gen::<u8>()
}

} // verus!
