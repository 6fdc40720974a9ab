//! The lifecycle and key-size limits that every cryptographic backend offers.

use vstd::prelude::*;
use crate::types::error::BackendResult;
use crate::types::key::{KeyAlgorithm, alg_is_rsa, key_bits};

verus! {

/// The largest key size a backend takes by default: the RSA sizes are
/// fixed, other algorithms have none.
pub open spec fn default_max_key_size(a: KeyAlgorithm) -> Option<usize> {
    if alg_is_rsa(a) {
        Some(key_bits(a) as usize)
    } else {
        None
    }
}

/// A cryptographic backend.
pub trait CryptoBackend {
    /// Prepares the backend; nothing to do by default.
    fn initialize(&self) -> (r: BackendResult<()>)
        default_ensures
            r is Ok,
    {
        Ok(())
    }

    /// Releases the backend; nothing to do by default.
    fn finalize(&self) -> (r: BackendResult<()>)
        default_ensures
            r is Ok,
    {
        Ok(())
    }

    /// The largest key size of `algorithm`, in bits: by default the RSA
    /// sizes, and none for other algorithms.
    fn max_key_size(&self, algorithm: KeyAlgorithm) -> (r: Option<usize>)
        default_ensures
            r == default_max_key_size(algorithm),
    {
        match algorithm {
            KeyAlgorithm::Rsa1024 => Some(1024),
            KeyAlgorithm::Rsa2048 => Some(2048),
            KeyAlgorithm::Rsa3072 => Some(3072),
            KeyAlgorithm::Rsa4096 => Some(4096),
            KeyAlgorithm::Rsa8192 => Some(8192),
            _ => None,
        }
    }

    /// The smallest key size of `algorithm`, in bits: by default its fixed
    /// size.
    fn min_key_size(&self, algorithm: KeyAlgorithm) -> (r: usize)
        default_ensures
            r == key_bits(algorithm),
    {
        match algorithm {
            KeyAlgorithm::Rsa1024 => 1024,
            KeyAlgorithm::Rsa2048 => 2048,
            KeyAlgorithm::Rsa3072 => 3072,
            KeyAlgorithm::Rsa4096 => 4096,
            KeyAlgorithm::Rsa8192 => 8192,
            _ => algorithm.key_size_bits(),
        }
    }
}

impl CryptoBackend for crate::mock::backend::MockBackend {}

impl CryptoBackend for crate::aws::backend::AwsLcBackend {}

} // verus!
