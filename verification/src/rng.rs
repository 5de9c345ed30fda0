//! The source of random bytes.
use vstd::prelude::*;

verus! {

/// A byte from `rand::random`, which draws it from the generator that `rand`
/// keeps for the current thread. Nothing is claimed of the byte: two calls
/// may give any two values.
#[verifier::external_body]
pub(crate) fn random_byte() -> (byte: u8) {
    rand::random::<u8>()
}

} // verus!
