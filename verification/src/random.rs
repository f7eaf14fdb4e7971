//! The source of the random instruction's byte.

use rand::Rng;
use vstd::prelude::*;

verus! {

/// A byte from `rand::thread_rng`, drawn with `Rng::gen`. Nothing is
/// promised about it: any byte can come back.
#[verifier::external_body]
pub(crate) fn random_byte() -> (byte: u8) {
    rand::thread_rng().gen()
}

} // verus!
