//! The AWS-LC operation contexts: digest, sign and decrypt.

use vstd::prelude::*;
use crate::aws::key::AwsLcKey;
use crate::aws::state::ContextStateManager;
use crate::digests::{AwsDigest, aws_digest, aws_digest_len, aws_lc_digest};
use crate::mock::context::append_bytes;
use crate::traits::context::{DecryptContext, DigestContext, sat_sub};
use crate::traits::key::Key;
use crate::types::context::{ContextState, state_can_finalize, state_can_update, state_debug};
use crate::types::error::{BackendError, BackendResult};
use crate::types::key::{KeyAlgorithm, key_bits};
use crate::types::mechanism::{DigestAlgorithm, Mechanism, digest_debug, digest_len};

verus! {

/// The AWS-LC algorithm that computes a digest, if any; SHA-512/224 falls
/// back to SHA-512/256.
pub open spec fn aws_alg_for(a: DigestAlgorithm) -> Option<AwsDigest> {
    match a {
        DigestAlgorithm::Sha1 => Some(AwsDigest::Sha1),
        DigestAlgorithm::Sha224 => Some(AwsDigest::Sha224),
        DigestAlgorithm::Sha256 => Some(AwsDigest::Sha256),
        DigestAlgorithm::Sha384 => Some(AwsDigest::Sha384),
        DigestAlgorithm::Sha512 => Some(AwsDigest::Sha512),
        DigestAlgorithm::Sha512_224 => Some(AwsDigest::Sha512_256),
        DigestAlgorithm::Sha512_256 => Some(AwsDigest::Sha512_256),
        _ => None,
    }
}

/// The message for a digest AWS-LC does not offer here.
pub open spec fn aws_unsupported_digest_msg(a: DigestAlgorithm) -> Seq<char> {
    "Digest algorithm "@ + digest_debug(a) + " not supported"@
}

/// The message for an operation refused in a state.
pub open spec fn state_msg(prefix: Seq<char>, s: ContextState) -> Seq<char> {
    prefix + state_debug(s)
}

/// An `InvalidState` error `prefix` followed by the state's name.
fn state_error(prefix: &str, s: ContextState) -> (r: BackendError)
    ensures
        r matches BackendError::InvalidState(m) && m@ == state_msg(prefix@, s),
{
    BackendError::InvalidState(String::from_str(prefix).concat(s.debug_name()))
}

/// An AWS-LC digest context. The data absorbed so far stands for the
/// hashing state, which is gone once the context is finalized.
#[derive(Debug)]
pub struct AwsLcDigestContext {
    pub algorithm: DigestAlgorithm,
    pub hash: AwsDigest,
    pub absorbed: Option<Vec<u8>>,
    pub state: ContextState,
    pub bytes_processed: u64,
}

impl AwsLcDigestContext {
    /// A digest context for SHA-1, SHA-224, SHA-256, SHA-384, SHA-512 and
    /// SHA-512/256 (which SHA-512/224 also gets); others are refused.
    pub fn new(algorithm: DigestAlgorithm) -> (r: BackendResult<Self>)
        ensures
            aws_alg_for(algorithm) matches Some(h) ==> (r matches Ok(c) && c.algorithm == algorithm && c.hash == h
                && (c.absorbed matches Some(a) && a@.len() == 0) && c.state == ContextState::Initialized
                && c.bytes_processed == 0),
            aws_alg_for(algorithm) is None ==> (r matches Err(BackendError::UnsupportedAlgorithm(m)) && m@
                == aws_unsupported_digest_msg(algorithm)),
    {
        let hash = match algorithm {
            DigestAlgorithm::Sha1 => AwsDigest::Sha1,
            DigestAlgorithm::Sha224 => AwsDigest::Sha224,
            DigestAlgorithm::Sha256 => AwsDigest::Sha256,
            DigestAlgorithm::Sha384 => AwsDigest::Sha384,
            DigestAlgorithm::Sha512 => AwsDigest::Sha512,
            DigestAlgorithm::Sha512_224 => AwsDigest::Sha512_256,
            DigestAlgorithm::Sha512_256 => AwsDigest::Sha512_256,
            _ => {
                let msg = String::from_str("Digest algorithm ").concat(algorithm.debug_name()).concat(
                    " not supported",
                );
                return Err(BackendError::UnsupportedAlgorithm(msg));
            },
        };
        Ok(AwsLcDigestContext {
            algorithm,
            hash,
            absorbed: Some(Vec::new()),
            state: ContextState::Initialized,
            bytes_processed: 0,
        })
    }
}

impl DigestContext for AwsLcDigestContext {
    closed spec fn spec_algorithm(&self) -> DigestAlgorithm {
        self.algorithm
    }

    /// Refused in a state that takes no data or once the hashing state is
    /// gone; otherwise `data` is absorbed and the context is active.
    open spec fn spec_update(&self, data: Seq<u8>, r: BackendResult<()>, next: Self) -> bool {
        &&& !state_can_update(self.state) ==> (r matches Err(BackendError::InvalidState(m)) && m@ == state_msg(
            "Cannot update digest in state "@,
            self.state,
        ) && next == *self)
        &&& state_can_update(self.state) && self.absorbed is None ==> (r matches Err(BackendError::InvalidState(m))
            && m@ == "Digest context not available"@)
        &&& state_can_update(self.state) && self.absorbed is Some ==> (r is Ok && next.absorbed is Some
            && next.absorbed.unwrap()@ == self.absorbed.unwrap()@ + data && next.state
            == ContextState::MultiPartActive && next.bytes_processed == (self.bytes_processed + data.len())
            % 0x1_0000_0000_0000_0000)
        &&& next.algorithm == self.algorithm
        &&& next.hash == self.hash
    }

    /// Refused in a state that does not allow it or once the hashing state
    /// is gone; otherwise the AWS-LC digest of what was absorbed.
    open spec fn spec_finalize(&self, r: Result<Seq<u8>, BackendError>) -> bool {
        &&& !state_can_finalize(self.state) ==> (r matches Err(BackendError::InvalidState(m)) && m@ == state_msg(
            "Cannot finalize digest in state "@,
            self.state,
        ))
        &&& state_can_finalize(self.state) && self.absorbed is None ==> (r matches Err(
            BackendError::InvalidState(m),
        ) && m@ == "Digest context not available"@)
        &&& state_can_finalize(self.state) && self.absorbed is Some ==> r == Ok::<Seq<u8>, BackendError>(
            aws_lc_digest(self.hash, self.absorbed.unwrap()@),
        )
        &&& r matches Ok(v) ==> v.len() == aws_digest_len(self.hash)
    }

    fn algorithm(&self) -> (r: DigestAlgorithm) {
        proof {
            assert(self.algorithm == self.spec_algorithm());
        }
        self.algorithm
    }

    fn state(&self) -> (r: ContextState)
        ensures
            r == self.state,
    {
        self.state
    }

    /// Absorb `data`, in a state that accepts data; the context is then
    /// active. The byte count wraps at 2^64.
    fn update(&mut self, data: &[u8]) -> (r: BackendResult<()>)
        ensures
            !state_can_update(old(self).state) ==> (r matches Err(BackendError::InvalidState(m)) && m@ == state_msg(
                "Cannot update digest in state "@,
                old(self).state,
            ) && *final(self) == *old(self)),
            state_can_update(old(self).state) && old(self).absorbed is None ==> (r matches Err(
                BackendError::InvalidState(m),
            ) && m@ == "Digest context not available"@),
            state_can_update(old(self).state) && old(self).absorbed is Some ==> (r is Ok
                && final(self).absorbed is Some && final(self).absorbed.unwrap()@ == old(self).absorbed.unwrap()@
                + data@ && final(self).state
                == ContextState::MultiPartActive && final(self).bytes_processed == (old(self).bytes_processed
                + data@.len()) % 0x1_0000_0000_0000_0000),
            final(self).algorithm == old(self).algorithm,
            final(self).hash == old(self).hash,
    {
        if !self.state.can_update() {
            return Err(state_error("Cannot update digest in state ", self.state));
        }
        match &mut self.absorbed {
            Some(buffer) => {
                append_bytes(buffer, data);
            },
            None => {
                return Err(BackendError::InvalidState(String::from_str("Digest context not available")));
            },
        }
        self.bytes_processed = self.bytes_processed.wrapping_add(data.len() as u64);
        self.state = ContextState::MultiPartActive;
        Ok(())
    }

    /// The digest of everything absorbed, in a state that allows it.
    fn finalize(self) -> (r: BackendResult<Vec<u8>>)
        ensures
            !state_can_finalize(self.state) ==> (r matches Err(BackendError::InvalidState(m)) && m@ == state_msg(
                "Cannot finalize digest in state "@,
                self.state,
            )),
            state_can_finalize(self.state) && self.absorbed is None ==> (r matches Err(BackendError::InvalidState(m))
                && m@ == "Digest context not available"@),
            state_can_finalize(self.state) && self.absorbed is Some ==> (r matches Ok(v) && v@
                == aws_lc_digest(self.hash, self.absorbed.unwrap()@)),
            r matches Ok(v) ==> v@.len() == aws_digest_len(self.hash),
    {
        if !self.state.can_finalize() {
            return Err(state_error("Cannot finalize digest in state ", self.state));
        }
        match &self.absorbed {
            Some(buffer) => Ok(aws_digest(self.hash, buffer.as_slice())),
            None => Err(BackendError::InvalidState(String::from_str("Digest context not available"))),
        }
    }

    fn bytes_processed(&self) -> (r: u64)
        ensures
            r == self.bytes_processed,
    {
        self.bytes_processed
    }

    fn supports_incremental(&self) -> (r: bool)
        ensures
            r,
    {
        true
    }

    fn supports_reset(&self) -> (r: bool)
        ensures
            !r,
    {
        false
    }
}

/// The signature size of the AWS-LC sign context for a key algorithm.
pub open spec fn aws_sig_size(a: KeyAlgorithm) -> nat {
    match a {
        KeyAlgorithm::Rsa2048 => 256,
        KeyAlgorithm::Rsa3072 => 384,
        KeyAlgorithm::Rsa4096 => 512,
        KeyAlgorithm::EcdsaP256 => 64,
        KeyAlgorithm::EcdsaP384 => 96,
        _ => 256,
    }
}

/// An AWS-LC sign context. It collects the data; its signature is a block of
/// zero bytes of the signature size (no signing is performed).
#[derive(Debug)]
pub struct AwsLcSignContext {
    pub mechanism: Mechanism,
    pub key: AwsLcKey,
    pub state_manager: ContextStateManager,
    pub accumulated_data: Vec<u8>,
}

impl AwsLcSignContext {
    /// A sign context over `key`.
    pub fn new(mechanism: Mechanism, key: AwsLcKey) -> (r: BackendResult<Self>)
        ensures
            r matches Ok(c) && c.mechanism == mechanism && c.key == key && c.state_manager.state
                == ContextState::Initialized && c.state_manager.bytes_processed == 0 && c.accumulated_data@.len() == 0,
    {
        Ok(AwsLcSignContext {
            mechanism,
            key,
            state_manager: ContextStateManager::new(),
            accumulated_data: Vec::new(),
        })
    }

    /// The mechanism.
    pub fn mechanism(&self) -> (r: &Mechanism)
        ensures
            *r == self.mechanism,
    {
        &self.mechanism
    }

    /// The signature size for the key's algorithm.
    pub fn signature_size(&self) -> (r: usize)
        ensures
            r == aws_sig_size(self.key.spec_algorithm()),
    {
        match self.key.algorithm() {
            KeyAlgorithm::Rsa2048 => 256,
            KeyAlgorithm::Rsa3072 => 384,
            KeyAlgorithm::Rsa4096 => 512,
            KeyAlgorithm::EcdsaP256 => 64,
            KeyAlgorithm::EcdsaP384 => 96,
            _ => 256,
        }
    }

    /// The current state.
    pub fn state(&self) -> (r: ContextState)
        ensures
            r == self.state_manager.state,
    {
        self.state_manager.state()
    }

    /// Collect `data`, in a state that accepts data; the context is then
    /// active.
    pub fn update(&mut self, data: &[u8]) -> (r: BackendResult<()>)
        ensures
            !state_can_update(old(self).state_manager.state) ==> (r matches Err(BackendError::InvalidState(m)) && m@
                == state_msg("Cannot update sign context in state "@, old(self).state_manager.state)
                && final(self).accumulated_data@ == old(self).accumulated_data@),
            state_can_update(old(self).state_manager.state) ==> (r is Ok && final(self).accumulated_data@ == old(
                self,
            ).accumulated_data@ + data@ && final(self).state_manager.state == ContextState::MultiPartActive
                && final(self).state_manager.bytes_processed == (old(self).state_manager.bytes_processed
                + data@.len()) % 0x1_0000_0000_0000_0000),
            final(self).mechanism == old(self).mechanism,
            final(self).key == old(self).key,
    {
        if !self.state_manager.can_update() {
            return Err(state_error("Cannot update sign context in state ", self.state_manager.state()));
        }
        append_bytes(&mut self.accumulated_data, data);
        self.state_manager.add_bytes_processed(data.len());
        self.state_manager.set_state(ContextState::MultiPartActive);
        Ok(())
    }

    /// The signature: zero bytes of the signature size, in a state that
    /// allows finalization.
    pub fn finalize(self) -> (r: BackendResult<Vec<u8>>)
        ensures
            !state_can_finalize(self.state_manager.state) ==> (r matches Err(BackendError::InvalidState(m)) && m@
                == state_msg("Cannot finalize sign context in state "@, self.state_manager.state)),
            state_can_finalize(self.state_manager.state) ==> (r matches Ok(v) && v@ == Seq::new(
                aws_sig_size(self.key.spec_algorithm()),
                |i: int| 0u8,
            )),
    {
        if !self.state_manager.can_finalize() {
            return Err(state_error("Cannot finalize sign context in state ", self.state_manager.state()));
        }
        let v = vec![0u8; self.signature_size()];
        proof {
            assert(v@ =~= Seq::new(aws_sig_size(self.key.spec_algorithm()), |i: int| 0u8));
        }
        Ok(v)
    }

    /// The bytes collected so far (modulo 2^64).
    pub fn bytes_processed(&self) -> (r: u64)
        ensures
            r == self.state_manager.bytes_processed,
    {
        self.state_manager.bytes_processed()
    }

    /// The key's algorithm.
    pub fn key_algorithm(&self) -> (r: KeyAlgorithm)
        ensures
            r == self.key.spec_algorithm(),
    {
        self.key.algorithm()
    }

    /// The key size in bits.
    pub fn key_size(&self) -> (r: usize)
        ensures
            r == key_bits(self.key.spec_algorithm()),
    {
        self.key.key_size()
    }
}

/// An AWS-LC decrypt context. Decryption is not performed: each update yields
/// zero bytes of the ciphertext length less a 16-byte tag.
#[derive(Debug)]
pub struct AwsLcDecryptContext {
    pub mechanism: Mechanism,
    pub key: AwsLcKey,
    pub state_manager: ContextStateManager,
}

impl AwsLcDecryptContext {
    /// A decrypt context over `key`.
    pub fn new(mechanism: Mechanism, key: AwsLcKey) -> (r: BackendResult<Self>)
        ensures
            r matches Ok(c) && c.mechanism == mechanism && c.key == key && c.state_manager.state
                == ContextState::Initialized && c.state_manager.bytes_processed == 0,
    {
        Ok(AwsLcDecryptContext { mechanism, key, state_manager: ContextStateManager::new() })
    }
}

impl DecryptContext for AwsLcDecryptContext {
    closed spec fn spec_mechanism(&self) -> Mechanism {
        self.mechanism
    }

    /// Refused in a state that takes no data; otherwise zero bytes of the
    /// ciphertext length less 16, and the context is active.
    open spec fn spec_update(&self, ciphertext: Seq<u8>, r: Result<Seq<u8>, BackendError>, next: Self) -> bool {
        &&& !state_can_update(self.state_manager.state) ==> (r matches Err(BackendError::InvalidState(m)) && m@
            == state_msg("Cannot update decrypt context in state "@, self.state_manager.state) && next == *self)
        &&& state_can_update(self.state_manager.state) ==> (r == Ok::<Seq<u8>, BackendError>(
            Seq::new(sat_sub(ciphertext.len(), 16), |i: int| 0u8),
        ) && next.state_manager.state == ContextState::MultiPartActive && next.state_manager.bytes_processed == (
        self.state_manager.bytes_processed + ciphertext.len()) % 0x1_0000_0000_0000_0000)
        &&& next.mechanism == self.mechanism
        &&& next.key == self.key
    }

    /// Refused in a state that does not allow it; otherwise nothing more.
    open spec fn spec_finalize(&self, r: Result<Seq<u8>, BackendError>) -> bool {
        &&& !state_can_finalize(self.state_manager.state) ==> (r matches Err(BackendError::InvalidState(m)) && m@
            == state_msg("Cannot finalize decrypt context in state "@, self.state_manager.state))
        &&& state_can_finalize(self.state_manager.state) ==> r == Ok::<Seq<u8>, BackendError>(Seq::empty())
    }

    closed spec fn spec_key_size(&self) -> usize {
        key_bits(self.key.spec_algorithm()) as usize
    }

    open spec fn spec_finalize_ok(&self) -> bool {
        true
    }

    open spec fn spec_update_then_finalize_ok(&self, ciphertext: Seq<u8>) -> bool {
        true
    }

    fn mechanism(&self) -> (r: &Mechanism) {
        &self.mechanism
    }

    fn state(&self) -> (r: ContextState)
        ensures
            r == self.state_manager.state,
    {
        self.state_manager.state()
    }

    /// In a state that accepts data: zero bytes of the ciphertext length less
    /// 16, and the context becomes active.
    fn update(&mut self, ciphertext: &[u8]) -> (r: BackendResult<Vec<u8>>)
        ensures
            !state_can_update(old(self).state_manager.state) ==> (r matches Err(BackendError::InvalidState(m)) && m@
                == state_msg("Cannot update decrypt context in state "@, old(self).state_manager.state) && *final(self)
                == *old(self)),
            state_can_update(old(self).state_manager.state) ==> final(self).state_manager.bytes_processed == (old(
                self,
            ).state_manager.bytes_processed + ciphertext@.len()) % 0x1_0000_0000_0000_0000,
            state_can_update(old(self).state_manager.state) ==> (r matches Ok(v) && v@ == Seq::new(
                sat_sub(ciphertext@.len(), 16),
                |i: int| 0u8,
            ) && final(self).state_manager.state == ContextState::MultiPartActive),
            final(self).mechanism == old(self).mechanism,
            final(self).key == old(self).key,
    {
        if !self.state_manager.can_update() {
            return Err(state_error("Cannot update decrypt context in state ", self.state_manager.state()));
        }
        self.state_manager.add_bytes_processed(ciphertext.len());
        self.state_manager.set_state(ContextState::MultiPartActive);
        let v = vec![0u8; ciphertext.len().saturating_sub(16)];
        proof {
            assert(v@ =~= Seq::new(sat_sub(ciphertext@.len(), 16), |i: int| 0u8));
            assert(self.spec_finalize_ok());
        }
        Ok(v)
    }

    /// Nothing more, in a state that allows finalization.
    fn finalize(self) -> (r: BackendResult<Vec<u8>>)
        ensures
            !state_can_finalize(self.state_manager.state) ==> (r matches Err(BackendError::InvalidState(m)) && m@
                == state_msg("Cannot finalize decrypt context in state "@, self.state_manager.state)),
            state_can_finalize(self.state_manager.state) ==> (r matches Ok(v) && v@.len() == 0),
    {
        if !self.state_manager.can_finalize() {
            return Err(state_error("Cannot finalize decrypt context in state ", self.state_manager.state()));
        }
        Ok(Vec::new())
    }

    fn bytes_processed(&self) -> (r: u64)
        ensures
            r == self.state_manager.bytes_processed,
    {
        self.state_manager.bytes_processed()
    }

    fn key_algorithm(&self) -> (r: KeyAlgorithm)
        ensures
            r == self.key.spec_algorithm(),
    {
        self.key.algorithm()
    }

    fn key_size(&self) -> (r: usize) {
        self.key.key_size()
    }
}

/// Feeding a digest in two updates gives what one update with the
/// concatenation gives: the digest depends only on the concatenated data.
pub proof fn lemma_aws_digest_streaming(h: AwsDigest, x: Seq<u8>, y: Seq<u8>)
    ensures
        aws_lc_digest(h, (Seq::<u8>::empty() + x) + y) == aws_lc_digest(h, x + y),
{
    assert((Seq::<u8>::empty() + x) + y =~= x + y);
}

/// A digest context computes the digest it is made for: the AWS-LC
/// function behind an algorithm gives digests of that algorithm's length,
/// and SHA-512/256 is used only for SHA-512/256 itself and for SHA-512/224,
/// which falls back to it. Every SHA-1 and SHA-2 algorithm has one.
pub proof fn lemma_aws_digest_matches_algorithm(a: DigestAlgorithm)
    ensures
        aws_alg_for(a) matches Some(h) ==> (a != DigestAlgorithm::Sha512_224 ==> aws_digest_len(h) == digest_len(a)),
        aws_alg_for(a) matches Some(h) ==> ((h == AwsDigest::Sha512_256) <==> (a == DigestAlgorithm::Sha512_256 || a
            == DigestAlgorithm::Sha512_224)),
        (a is Sha1 || a is Sha224 || a is Sha256 || a is Sha384 || a is Sha512 || a is Sha512_224 || a is Sha512_256)
            <==> aws_alg_for(a) is Some,
{
}

/// The digest a context made for `a` gives has `a`'s length (SHA-512/224,
/// which falls back to SHA-512/256, has 32 bytes).
pub proof fn lemma_aws_digest_context_length(c: AwsLcDigestContext, r: Result<Seq<u8>, BackendError>)
    requires
        aws_alg_for(c.algorithm) == Some(c.hash),
        c.spec_finalize(r),
        r is Ok,
    ensures
        r matches Ok(v) && v.len() == (if c.algorithm == DigestAlgorithm::Sha512_224 {
            32
        } else {
            digest_len(c.algorithm)
        }),
{
    lemma_aws_digest_matches_algorithm(c.algorithm);
}

} // verus!
