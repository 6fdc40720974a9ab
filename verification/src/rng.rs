//! Randomness from the operating system's generator.

use vstd::prelude::*;
use rand::RngCore;

verus! {

/// `len` random bytes from `rand::thread_rng`. Only the length is promised:
/// the contents are chance.
#[verifier::external_body]
pub(crate) fn random_bytes(len: usize) -> (r: Vec<u8>)
    ensures
        r@.len() == len,
{
    let mut data = vec![0u8; len];
    rand::thread_rng().fill_bytes(&mut data);
    data
}

} // verus!
