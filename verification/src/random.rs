use rand::Rng;
use vstd::prelude::*;

verus! {

/// Calls `Rng::gen` on `rand::thread_rng()` for twelve bytes, the size of a
/// nonce and of a salt.
///
/// Nothing is claimed of the bytes: each call may return any block.
#[verifier::external_body]
pub(crate) fn random_block() -> (block: [u8; 12]) {
    rand::thread_rng().gen()
}

/// Calls `Rng::gen` on `rand::thread_rng()` for 32 bytes, the size of a
/// master key.
///
/// Nothing is claimed of the bytes: each call may return any key.
#[verifier::external_body]
pub(crate) fn random_key() -> (key: [u8; 32]) {
    rand::thread_rng().gen()
}

} // verus!
