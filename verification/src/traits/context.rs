//! The operation contexts of a backend: digest, verify, encrypt and decrypt.
//! Each is driven by `update` calls and closed by `finalize`.

use vstd::prelude::*;
use crate::types::context::ContextState;
use crate::types::error::{BackendError, BackendResult};
use crate::types::key::KeyAlgorithm;
use crate::types::mechanism::{AesMode, DigestAlgorithm, Mechanism, digest_len};
use crate::mock::context::append_bytes;

verus! {

/// An `UnsupportedOperation` error with message `m`.
pub open spec fn unsupported(r: BackendError, m: Seq<char>) -> bool {
    r matches BackendError::UnsupportedOperation(s) && s@ == m
}

/// `Err(UnsupportedOperation(m))`.
fn unsupported_err<T>(m: &str) -> (r: BackendResult<T>)
    ensures
        r matches Err(e) && unsupported(e, m@),
{
    Err(BackendError::UnsupportedOperation(String::from_str(m)))
}

/// The bytes of a byte result.
pub open spec fn byte_result(r: BackendResult<Vec<u8>>) -> Result<Seq<u8>, BackendError> {
    match r {
        Ok(v) => Ok(v@),
        Err(e) => Err(e),
    }
}

/// The contents of each chunk.
pub open spec fn chunk_views(chunks: Seq<Vec<u8>>) -> Seq<Seq<u8>> {
    chunks.map_values(|c: Vec<u8>| c@)
}

/// The outputs of several steps, one after the other.
pub open spec fn concat_all(outs: Seq<Seq<u8>>) -> Seq<u8>
    decreases outs.len(),
{
    if outs.len() == 0 {
        Seq::empty()
    } else {
        concat_all(outs.drop_last()) + outs.last()
    }
}

/// Input block size in bytes of each digest algorithm.
pub open spec fn digest_block_size(a: DigestAlgorithm) -> nat {
    match a {
        DigestAlgorithm::Sha1 | DigestAlgorithm::Sha224 | DigestAlgorithm::Sha256 => 64,
        DigestAlgorithm::Sha384 | DigestAlgorithm::Sha512 | DigestAlgorithm::Sha512_224
        | DigestAlgorithm::Sha512_256 => 128,
        DigestAlgorithm::Sha3_224 => 144,
        DigestAlgorithm::Sha3_256 => 136,
        DigestAlgorithm::Sha3_384 => 104,
        DigestAlgorithm::Sha3_512 => 72,
        DigestAlgorithm::Blake2b256 | DigestAlgorithm::Blake2b512 => 128,
        DigestAlgorithm::Blake2s256 | DigestAlgorithm::Md5 => 64,
    }
}

/// A digest context.
pub trait DigestContext: Sized {
    /// The digest algorithm.
    spec fn spec_algorithm(&self) -> DigestAlgorithm;

    /// The digest algorithm.
    fn algorithm(&self) -> (r: DigestAlgorithm)
        ensures
            r == self.spec_algorithm(),
    ;

    /// The digest size in bytes.
    fn output_size(&self) -> (r: usize)
        default_ensures
            r == digest_len(self.spec_algorithm()),
    {
        self.algorithm().output_size()
    }

    /// The context's state.
    fn state(&self) -> ContextState;

    /// Whether absorbing `data` may give `r` and leave the context as
    /// `next`.
    spec fn spec_update(&self, data: Seq<u8>, r: BackendResult<()>, next: Self) -> bool;

    /// Whether finishing may give `r`: the digest, or an error.
    spec fn spec_finalize(&self, r: Result<Seq<u8>, BackendError>) -> bool;

    /// Absorb `data`.
    fn update(&mut self, data: &[u8]) -> (r: BackendResult<()>)
        ensures
            old(self).spec_update(data@, r, *final(self)),
    ;

    /// The digest of everything absorbed.
    fn finalize(self) -> (r: BackendResult<Vec<u8>>)
        ensures
            self.spec_finalize(byte_result(r)),
    ;

    /// Absorb `data` and finish: fails where the update or the finalization
    /// fails.
    fn digest(self, data: &[u8]) -> (r: BackendResult<Vec<u8>>)
        ensures
            exists|u: BackendResult<()>, mid: Self|
                #[trigger] self.spec_update(data@, u, mid) && match u {
                    Ok(_) => mid.spec_finalize(byte_result(r)),
                    Err(e) => byte_result(r) == Err::<Seq<u8>, BackendError>(e),
                },
    {
        let ghost start = self;
        let mut ctx = self;
        let u = ctx.update(data);
        let ghost mid = ctx;
        match u {
            Ok(()) => {},
            Err(e) => {
                proof {
                    assert(start.spec_update(data@, u, mid));
                }
                return Err(e);
            },
        }
        let r = ctx.finalize();
        proof {
            assert(start.spec_update(data@, u, mid));
        }
        r
    }

    /// The intermediate digest; not supported unless an implementation offers
    /// it.
    fn digest_state(&self) -> (r: BackendResult<Vec<u8>>)
        default_ensures
            r matches Err(e) && unsupported(e, "digest_state not supported"@),
    {
        unsupported_err("digest_state not supported")
    }

    /// Whether the context can be cloned (no, by default).
    fn supports_cloning(&self) -> (r: bool)
        default_ensures
            !r,
    {
        false
    }

    /// Start over; not supported unless an implementation offers it.
    fn reset(&mut self) -> (r: BackendResult<()>)
        default_ensures
            r matches Err(e) && unsupported(e, "context reset not supported"@),
    {
        unsupported_err("context reset not supported")
    }

    /// Bytes processed so far (0 unless an implementation counts them).
    fn bytes_processed(&self) -> (r: u64)
        default_ensures
            r == 0,
    {
        0
    }

    /// Whether data may be fed in several updates (yes, by default).
    fn supports_incremental(&self) -> (r: bool)
        default_ensures
            r,
    {
        true
    }

    /// Whether the intermediate state can be extracted (no, by default).
    fn supports_state_extraction(&self) -> (r: bool)
        default_ensures
            !r,
    {
        false
    }

    /// Whether reset is supported (no, by default).
    fn supports_reset(&self) -> (r: bool)
        default_ensures
            !r,
    {
        false
    }

    /// The input block size of the algorithm, in bytes.
    fn block_size(&self) -> (r: Option<usize>)
        ensures
            r == Some(digest_block_size(self.spec_algorithm()) as usize),
    {
        match self.algorithm() {
            DigestAlgorithm::Sha1 => Some(64),
            DigestAlgorithm::Sha224 => Some(64),
            DigestAlgorithm::Sha256 => Some(64),
            DigestAlgorithm::Sha384 => Some(128),
            DigestAlgorithm::Sha512 => Some(128),
            DigestAlgorithm::Sha512_224 => Some(128),
            DigestAlgorithm::Sha512_256 => Some(128),
            DigestAlgorithm::Sha3_224 => Some(144),
            DigestAlgorithm::Sha3_256 => Some(136),
            DigestAlgorithm::Sha3_384 => Some(104),
            DigestAlgorithm::Sha3_512 => Some(72),
            DigestAlgorithm::Blake2b256 => Some(128),
            DigestAlgorithm::Blake2b512 => Some(128),
            DigestAlgorithm::Blake2s256 => Some(64),
            DigestAlgorithm::Md5 => Some(64),
        }
    }

    /// Absorb each chunk in turn, stopping at the first failure: on success
    /// the context has gone through one successful update per chunk; on
    /// failure, through successful updates with the chunks before the one
    /// whose update failed.
    fn update_chunks(&mut self, chunks: &Vec<Vec<u8>>) -> (r: BackendResult<()>)
        ensures
            r is Ok ==> exists|states: Seq<Self>|
                #![trigger states.len()]
                states.len() == chunks@.len() + 1 && states[0] == *old(self) && states.last() == *final(self)
                    && forall|j: int|
                    0 <= j < chunks@.len() ==> #[trigger] states[j].spec_update(
                        chunk_views(chunks@)[j],
                        Ok(()),
                        states[j + 1],
                    ),
            r matches Err(e) ==> exists|states: Seq<Self>|
                #![trigger states.len()]
                0 < states.len() <= chunks@.len() && states[0] == *old(self) && (forall|j: int|
                    0 <= j < states.len() - 1 ==> #[trigger] states[j].spec_update(
                        chunk_views(chunks@)[j],
                        Ok(()),
                        states[j + 1],
                    )) && states.last().spec_update(chunk_views(chunks@)[states.len() - 1], Err(e), *final(self)),
    {
        let mut i: usize = 0;
        let ghost mut states: Seq<Self> = seq![*self];
        while i < chunks.len()
            invariant
                0 <= i <= chunks@.len(),
                states.len() == i + 1,
                states[0] == *old(self),
                states.last() == *self,
                forall|j: int|
                    0 <= j < i ==> #[trigger] states[j].spec_update(chunk_views(chunks@)[j], Ok(()), states[j + 1]),
            decreases chunks@.len() - i,
        {
            let ghost prev = *self;
            let u = self.update(chunks[i].as_slice());
            proof {
                assert(chunk_views(chunks@)[i as int] == chunks@[i as int]@);
            }
            match u {
                Ok(()) => {},
                Err(e) => {
                    proof {
                        assert(states.last().spec_update(chunk_views(chunks@)[states.len() - 1], Err(e), *self));
                    }
                    return Err(e);
                },
            }
            proof {
                assert(prev.spec_update(chunk_views(chunks@)[i as int], u, *self));
                assert(u is Ok);
                assert(u->Ok_0 == ());
                assert(u == Ok::<(), BackendError>(()));
                assert(prev.spec_update(chunk_views(chunks@)[i as int], Ok(()), *self));
                let old_states = states;
                states = states.push(*self);
                assert forall|j: int| 0 <= j < i + 1 implies #[trigger] states[j].spec_update(
                    chunk_views(chunks@)[j],
                    Ok(()),
                    states[j + 1],
                ) by {
                    if j < i {
                        assert(states[j] == old_states[j]);
                        assert(states[j + 1] == old_states[j + 1]);
                    } else {
                        assert(states[j] == prev);
                        assert(states[j + 1] == *self);
                    }
                }
            }
            i = i + 1;
        }
        Ok(())
    }

    /// Finish and compare the digest with `expected`.
    fn verify(self, expected: &[u8]) -> (r: BackendResult<bool>)
        ensures
            r matches Err(e) ==> self.spec_finalize(Err(e)),
            r matches Ok(b) ==> exists|d: Seq<u8>|
                #[trigger] self.spec_finalize(Ok::<Seq<u8>, BackendError>(d)) && b == (d == expected@),
    {
        let ghost start = self;
        let f = self.finalize();
        let actual = match f {
            Ok(a) => a,
            Err(e) => return Err(e),
        };
        let b = crate::utils::conversion::constant_time_eq(actual.as_slice(), expected);
        proof {
            assert(start.spec_finalize(Ok::<Seq<u8>, BackendError>(actual@)));
        }
        Ok(b)
    }

    /// Algorithm parameters (none, by default).
    fn algorithm_params(&self) -> (r: Vec<(String, Vec<u8>)>)
        default_ensures
            r@.len() == 0,
    {
        Vec::new()
    }

    /// Setting parameters is not supported unless an implementation offers
    /// it.
    fn set_algorithm_params(&mut self, params: Vec<(String, Vec<u8>)>) -> (r: BackendResult<()>) {
        unsupported_err("parameter setting not supported")
    }
}

/// How a signature is laid out.
#[derive(Debug, Clone, Copy, PartialEq, Eq, Structural)]
pub enum SignatureFormat {
    /// The raw signature bytes.
    Raw,
    /// An ECDSA signature as the concatenation `r || s`.
    EcdsaRaw,
    /// A layout not known here.
    Unknown,
}

/// The signature layout of each mechanism.
pub open spec fn mech_signature_format(m: Mechanism) -> SignatureFormat {
    match m {
        Mechanism::RsaPkcs1 { .. } | Mechanism::RsaPkcs1Pss { .. } | Mechanism::RsaX509 => SignatureFormat::Raw,
        Mechanism::Ecdsa { .. } => SignatureFormat::EcdsaRaw,
        Mechanism::EdDsa => SignatureFormat::Raw,
        Mechanism::Hmac { .. } => SignatureFormat::Raw,
        _ => SignatureFormat::Unknown,
    }
}

/// The digest a signature mechanism applies, if any.
pub open spec fn mech_digest(m: Mechanism) -> Option<DigestAlgorithm> {
    match m {
        Mechanism::RsaPkcs1 { digest } => digest,
        Mechanism::RsaPkcs1Pss { digest, .. } => Some(digest),
        Mechanism::Ecdsa { digest } => digest,
        Mechanism::Hmac { hash } => Some(hash),
        _ => None,
    }
}

/// The largest message a signature mechanism takes for a key of `bits` bits:
/// raw PKCS#1 leaves 11 bytes for padding, raw RSA takes a whole block.
pub open spec fn verify_max_data(m: Mechanism, bits: nat) -> Option<nat> {
    match m {
        Mechanism::RsaPkcs1 { digest: None } => Some(if bits / 8 >= 11 { (bits / 8 - 11) as nat } else { 0 }),
        Mechanism::RsaX509 => Some(bits / 8),
        _ => None,
    }
}

/// `a - b`, or 0 where `b` exceeds `a`.
pub open spec fn sat_sub(a: nat, b: nat) -> nat {
    if a >= b { (a - b) as nat } else { 0 }
}

/// A verify context.
pub trait VerifyContext: Sized {
    /// The mechanism.
    spec fn spec_mechanism(&self) -> Mechanism;

    /// The key size in bits.
    spec fn spec_key_size(&self) -> usize;

    /// The mechanism.
    fn mechanism(&self) -> (r: &Mechanism)
        ensures
            *r == self.spec_mechanism(),
    ;

    /// The expected signature size.
    fn signature_size(&self) -> usize;

    /// The context's state.
    fn state(&self) -> ContextState;

    /// Whether adding `data` may give `r` and leave the context as `next`.
    spec fn spec_update(&self, data: Seq<u8>, r: BackendResult<()>, next: Self) -> bool;

    /// Whether checking `signature` may give `r`.
    spec fn spec_finalize(&self, signature: Seq<u8>, r: BackendResult<bool>) -> bool;

    /// Add `data` to what is verified.
    fn update(&mut self, data: &[u8]) -> (r: BackendResult<()>)
        ensures
            old(self).spec_update(data@, r, *final(self)),
    ;

    /// Whether `signature` is valid over everything added.
    fn finalize(self, signature: &[u8]) -> (r: BackendResult<bool>)
        ensures
            self.spec_finalize(signature@, r),
    ;

    /// Add `data` and check `signature`.
    fn verify(self, data: &[u8], signature: &[u8]) -> (r: BackendResult<bool>)
        ensures
            exists|u: BackendResult<()>, mid: Self|
                #[trigger] self.spec_update(data@, u, mid) && match u {
                    Ok(_) => mid.spec_finalize(signature@, r),
                    Err(e) => r == Err::<bool, BackendError>(e),
                },
    {
        let ghost start = self;
        let mut ctx = self;
        let u = ctx.update(data);
        let ghost mid = ctx;
        match u {
            Ok(()) => {},
            Err(e) => {
                proof {
                    assert(start.spec_update(data@, u, mid));
                }
                return Err(e);
            },
        }
        let r = ctx.finalize(signature);
        proof {
            assert(start.spec_update(data@, u, mid));
        }
        r
    }

    /// Bytes processed so far (0 unless an implementation counts them).
    fn bytes_processed(&self) -> (r: u64)
        default_ensures
            r == 0,
    {
        0
    }

    /// Whether data may be fed in several updates: the hashing mechanisms.
    fn supports_incremental(&self) -> (r: bool)
        ensures
            r == (match self.spec_mechanism() {
                Mechanism::RsaPkcs1 { digest: Some(_) } => true,
                Mechanism::RsaPkcs1Pss { .. } => true,
                Mechanism::Ecdsa { digest: Some(_) } => true,
                Mechanism::Hmac { .. } => true,
                _ => false,
            }),
    {
        match self.mechanism() {
            Mechanism::RsaPkcs1 { digest: Some(_) } => true,
            Mechanism::RsaPkcs1Pss { .. } => true,
            Mechanism::Ecdsa { digest: Some(_) } => true,
            Mechanism::Hmac { .. } => true,
            _ => false,
        }
    }

    /// Whether single-part verification is supported (yes, by default).
    fn supports_single_part(&self) -> (r: bool)
        default_ensures
            r,
    {
        true
    }

    /// The key's algorithm.
    fn key_algorithm(&self) -> KeyAlgorithm;

    /// The key size in bits.
    fn key_size(&self) -> (r: usize)
        ensures
            r == self.spec_key_size(),
    ;

    /// Start over; not supported unless an implementation offers it.
    fn reset(&mut self) -> (r: BackendResult<()>)
        default_ensures
            r matches Err(e) && unsupported(e, "context reset not supported"@),
    {
        unsupported_err("context reset not supported")
    }

    /// Whether reset is supported (no, by default).
    fn supports_reset(&self) -> (r: bool)
        default_ensures
            !r,
    {
        false
    }

    /// Add each chunk in turn, stopping at the first failure: on success
    /// the context has gone through one successful update per chunk; on
    /// failure, through successful updates with the chunks before the one
    /// whose update failed.
    fn update_chunks(&mut self, chunks: &Vec<Vec<u8>>) -> (r: BackendResult<()>)
        ensures
            r is Ok ==> exists|states: Seq<Self>|
                #![trigger states.len()]
                states.len() == chunks@.len() + 1 && states[0] == *old(self) && states.last() == *final(self)
                    && forall|j: int|
                    0 <= j < chunks@.len() ==> #[trigger] states[j].spec_update(
                        chunk_views(chunks@)[j],
                        Ok(()),
                        states[j + 1],
                    ),
            r matches Err(e) ==> exists|states: Seq<Self>|
                #![trigger states.len()]
                0 < states.len() <= chunks@.len() && states[0] == *old(self) && (forall|j: int|
                    0 <= j < states.len() - 1 ==> #[trigger] states[j].spec_update(
                        chunk_views(chunks@)[j],
                        Ok(()),
                        states[j + 1],
                    )) && states.last().spec_update(chunk_views(chunks@)[states.len() - 1], Err(e), *final(self)),
    {
        let mut i: usize = 0;
        let ghost mut states: Seq<Self> = seq![*self];
        while i < chunks.len()
            invariant
                0 <= i <= chunks@.len(),
                states.len() == i + 1,
                states[0] == *old(self),
                states.last() == *self,
                forall|j: int|
                    0 <= j < i ==> #[trigger] states[j].spec_update(chunk_views(chunks@)[j], Ok(()), states[j + 1]),
            decreases chunks@.len() - i,
        {
            let ghost prev = *self;
            let u = self.update(chunks[i].as_slice());
            proof {
                assert(chunk_views(chunks@)[i as int] == chunks@[i as int]@);
            }
            match u {
                Ok(()) => {},
                Err(e) => {
                    proof {
                        assert(states.last().spec_update(chunk_views(chunks@)[states.len() - 1], Err(e), *self));
                    }
                    return Err(e);
                },
            }
            proof {
                assert(prev.spec_update(chunk_views(chunks@)[i as int], u, *self));
                assert(u is Ok);
                assert(u->Ok_0 == ());
                assert(u == Ok::<(), BackendError>(()));
                assert(prev.spec_update(chunk_views(chunks@)[i as int], Ok(()), *self));
                let old_states = states;
                states = states.push(*self);
                assert forall|j: int| 0 <= j < i + 1 implies #[trigger] states[j].spec_update(
                    chunk_views(chunks@)[j],
                    Ok(()),
                    states[j + 1],
                ) by {
                    if j < i {
                        assert(states[j] == old_states[j]);
                        assert(states[j + 1] == old_states[j + 1]);
                    } else {
                        assert(states[j] == prev);
                        assert(states[j + 1] == *self);
                    }
                }
            }
            i = i + 1;
        }
        Ok(())
    }

    /// Mechanism parameters (none, by default).
    fn mechanism_params(&self) -> (r: Vec<(String, Vec<u8>)>)
        default_ensures
            r@.len() == 0,
    {
        Vec::new()
    }

    /// Setting parameters is not supported unless an implementation offers
    /// it.
    fn set_mechanism_params(&mut self, params: Vec<(String, Vec<u8>)>) -> (r: BackendResult<()>) {
        unsupported_err("parameter setting not supported")
    }

    /// The largest message for raw PKCS#1 (key bytes less 11) and raw RSA (key
    /// bytes); no limit otherwise.
    fn max_data_size(&self) -> (r: Option<usize>)
        ensures
            r matches Some(n) ==> verify_max_data(self.spec_mechanism(), self.spec_key_size() as nat) == Some(n as nat),
            r is None <==> verify_max_data(self.spec_mechanism(), self.spec_key_size() as nat) is None,
    {
        match self.mechanism() {
            Mechanism::RsaPkcs1 { digest: None } => Some((self.key_size() / 8).saturating_sub(11)),
            Mechanism::RsaX509 => Some(self.key_size() / 8),
            _ => None,
        }
    }

    /// Whether a message of `data_size` bytes is within the limit.
    fn is_valid_data_size(&self, data_size: usize) -> (r: bool)
        ensures
            r == (match verify_max_data(self.spec_mechanism(), self.spec_key_size() as nat) {
                Some(m) => data_size <= m,
                None => true,
            }),
    {
        match self.max_data_size() {
            Some(max_size) => data_size <= max_size,
            None => true,
        }
    }

    /// The digest the mechanism applies, if any.
    fn digest_algorithm(&self) -> (r: Option<DigestAlgorithm>)
        ensures
            r == mech_digest(self.spec_mechanism()),
    {
        match self.mechanism() {
            Mechanism::RsaPkcs1 { digest } => *digest,
            Mechanism::RsaPkcs1Pss { digest, .. } => Some(*digest),
            Mechanism::Ecdsa { digest } => *digest,
            Mechanism::Hmac { hash } => Some(*hash),
            _ => None,
        }
    }

    /// Whether the message can be recovered from a signature (no, by default).
    fn is_recoverable(&self) -> (r: bool)
        default_ensures
            !r,
    {
        false
    }

    /// The signature layout of the mechanism.
    fn signature_format(&self) -> (r: SignatureFormat)
        ensures
            r == mech_signature_format(self.spec_mechanism()),
    {
        match self.mechanism() {
            Mechanism::RsaPkcs1 { .. } | Mechanism::RsaPkcs1Pss { .. } | Mechanism::RsaX509 => SignatureFormat::Raw,
            Mechanism::Ecdsa { .. } => SignatureFormat::EcdsaRaw,
            Mechanism::EdDsa => SignatureFormat::Raw,
            Mechanism::Hmac { .. } => SignatureFormat::Raw,
            _ => SignatureFormat::Unknown,
        }
    }

    /// Message recovery is not supported unless an implementation offers it.
    fn verify_recover(self, signature: &[u8]) -> (r: BackendResult<Vec<u8>>)
        default_ensures
            r matches Err(e) && unsupported(e, "message recovery not supported"@),
    {
        unsupported_err("message recovery not supported")
    }
}

/// Whether a mechanism is an AEAD cipher: AES-GCM, AES-CCM, ChaCha20-Poly1305.
pub open spec fn mech_is_aead(m: Mechanism) -> bool {
    match m {
        Mechanism::Aes { mode: AesMode::Gcm, .. } | Mechanism::Aes { mode: AesMode::Ccm, .. }
        | Mechanism::ChaCha20Poly1305 => true,
        _ => false,
    }
}

/// Whether a cipher mechanism takes data in several updates.
pub open spec fn mech_incremental_cipher(m: Mechanism) -> bool {
    m is Aes || m is ChaCha20 || m is ChaCha20Poly1305
}

/// The AES block size where the mechanism is AES.
pub open spec fn mech_block_size(m: Mechanism) -> Option<usize> {
    if m is Aes { Some(16) } else { None }
}

/// Whether a mechanism is a padded block mode: AES-ECB or AES-CBC.
pub open spec fn mech_padded_block(m: Mechanism) -> bool {
    m matches Mechanism::Aes { mode, .. } && (mode == AesMode::Ecb || mode == AesMode::Cbc)
}

/// With the AES block size, a padded block mode adds between 1 and 16
/// bytes: the output is the input rounded up to the next whole block, a
/// full block more when the input fills whole blocks.
pub proof fn lemma_padded_output_size(m: Mechanism, bits: nat, n: nat)
    requires
        mech_padded_block(m),
    ensures
        encrypt_output_size(m, bits, 16, n) == (n / 16 + 1) * 16,
        n < encrypt_output_size(m, bits, 16, n) <= n + 16,
{
    assert((n + 16) / 16 == n / 16 + 1) by (nonlinear_arith);
    assert(n < (n / 16 + 1) * 16 <= n + 16) by (nonlinear_arith);
}

/// The largest plaintext of an encryption for a key of `bits` bits: PKCS#1
/// leaves 11 bytes, OAEP with SHA-256 66, raw RSA takes a whole block.
pub open spec fn encrypt_max_data(m: Mechanism, bits: nat) -> Option<nat> {
    match m {
        Mechanism::RsaPkcs1 { digest: None } => Some(sat_sub(bits / 8, 11)),
        Mechanism::RsaOaep { .. } => Some(sat_sub(bits / 8, 66)),
        Mechanism::RsaX509 => Some(bits / 8),
        _ => None,
    }
}

/// The ciphertext size of `input` bytes: a key block for RSA, whole blocks
/// with at least one byte of padding for AES-ECB and CBC (block `b`), the
/// input and a 16-byte tag for AES-GCM and ChaCha20-Poly1305.
pub open spec fn encrypt_output_size(m: Mechanism, bits: nat, b: nat, input: nat) -> nat {
    match m {
        Mechanism::RsaPkcs1 { .. } | Mechanism::RsaOaep { .. } | Mechanism::RsaX509 => bits / 8,
        Mechanism::Aes { mode: AesMode::Ecb, .. } | Mechanism::Aes { mode: AesMode::Cbc, .. } => ((input + b) / b)
            * b,
        Mechanism::Aes { mode: AesMode::Gcm, .. } => input + 16,
        Mechanism::ChaCha20Poly1305 => input + 16,
        _ => input,
    }
}

/// The message of a tag or AAD request: not implemented for an AEAD cipher,
/// refused for another one.
pub open spec fn aead_msg(aead: bool, not_implemented: Seq<char>) -> Seq<char> {
    if aead {
        not_implemented
    } else {
        "not an AEAD cipher"@
    }
}

/// An encrypt context.
pub trait EncryptContext: Sized {
    /// The mechanism.
    spec fn spec_mechanism(&self) -> Mechanism;

    /// The key size in bits.
    spec fn spec_key_size(&self) -> usize;

    /// The mechanism.
    fn mechanism(&self) -> (r: &Mechanism)
        ensures
            *r == self.spec_mechanism(),
    ;

    /// The context's state.
    fn state(&self) -> ContextState;

    /// Whether finalizing now is within the implementation's domain.
    spec fn spec_finalize_ok(&self) -> bool;

    /// Whether finalizing after an update with `data` is within the
    /// implementation's domain.
    spec fn spec_update_then_finalize_ok(&self, data: Seq<u8>) -> bool;

    /// Whether encrypting `data` may give `r` (the ciphertext produced) and
    /// leave the context as `next`.
    spec fn spec_update(&self, data: Seq<u8>, r: Result<Seq<u8>, BackendError>, next: Self) -> bool;

    /// Whether finishing may give `r`: the remaining ciphertext, or an error.
    spec fn spec_finalize(&self, r: Result<Seq<u8>, BackendError>) -> bool;

    /// Encrypt more data; returns the ciphertext produced so far.
    fn update(&mut self, data: &[u8]) -> (r: BackendResult<Vec<u8>>)
        ensures
            r is Ok && old(self).spec_update_then_finalize_ok(data@) ==> final(self).spec_finalize_ok(),
            old(self).spec_update(data@, byte_result(r), *final(self)),
    ;

    /// The remaining ciphertext.
    fn finalize(self) -> (r: BackendResult<Vec<u8>>)
        requires
            self.spec_finalize_ok(),
        ensures
            self.spec_finalize(byte_result(r)),
    ;

    /// Encrypt `data` in one go: the update's output followed by the final
    /// output.
    fn encrypt(self, data: &[u8]) -> (r: BackendResult<Vec<u8>>)
        requires
            self.spec_update_then_finalize_ok(data@),
        ensures
            exists|u: Result<Seq<u8>, BackendError>, mid: Self|
                #[trigger] self.spec_update(data@, u, mid) && match u {
                    Err(e) => byte_result(r) == Err::<Seq<u8>, BackendError>(e),
                    Ok(head) => exists|f: Result<Seq<u8>, BackendError>|
                        #[trigger] mid.spec_finalize(f) && byte_result(r) == match f {
                            Ok(tail) => Ok::<Seq<u8>, BackendError>(head + tail),
                            Err(e) => Err::<Seq<u8>, BackendError>(e),
                        },
                },
    {
        let ghost start = self;
        let mut ctx = self;
        let u = ctx.update(data);
        let ghost mid = ctx;
        proof {
            assert(start.spec_update(data@, byte_result(u), mid));
        }
        let mut result = match u {
            Ok(v) => v,
            Err(e) => return Err(e),
        };
        let f = ctx.finalize();
        proof {
            assert(mid.spec_finalize(byte_result(f)));
        }
        let final_data = match f {
            Ok(v) => v,
            Err(e) => return Err(e),
        };
        append_bytes(&mut result, final_data.as_slice());
        Ok(result)
    }

    /// Bytes processed so far (0 unless an implementation counts them).
    fn bytes_processed(&self) -> (r: u64)
        default_ensures
            r == 0,
    {
        0
    }

    /// Whether data may be fed in several updates: AES and ChaCha20.
    fn supports_incremental(&self) -> (r: bool)
        ensures
            r == mech_incremental_cipher(self.spec_mechanism()),
    {
        match self.mechanism() {
            Mechanism::Aes { .. } => true,
            Mechanism::ChaCha20 => true,
            Mechanism::ChaCha20Poly1305 => true,
            _ => false,
        }
    }

    /// Whether single-part encryption is supported (yes, by default).
    fn supports_single_part(&self) -> (r: bool)
        default_ensures
            r,
    {
        true
    }

    /// The key's algorithm.
    fn key_algorithm(&self) -> KeyAlgorithm;

    /// The key size in bits.
    fn key_size(&self) -> (r: usize)
        ensures
            r == self.spec_key_size(),
    ;

    /// Start over; not supported unless an implementation offers it.
    fn reset(&mut self) -> (r: BackendResult<()>)
        default_ensures
            r matches Err(e) && unsupported(e, "context reset not supported"@),
    {
        unsupported_err("context reset not supported")
    }

    /// Whether reset is supported (no, by default).
    fn supports_reset(&self) -> (r: bool)
        default_ensures
            !r,
    {
        false
    }

    /// Encrypt each chunk in turn and concatenate the outputs, stopping at the
    /// first failure: on success the context has gone through one
    /// successful update per chunk and the result is their outputs in
    /// order; on failure, through successful updates with the chunks before
    /// the one whose update failed.
    fn update_chunks(&mut self, chunks: &Vec<Vec<u8>>) -> (r: BackendResult<Vec<u8>>)
        ensures
            r matches Ok(v) ==> exists|states: Seq<Self>, outs: Seq<Seq<u8>>|
                #![trigger states.len(), outs.len()]
                states.len() == chunks@.len() + 1 && outs.len() == chunks@.len() && states[0] == *old(self)
                    && states.last() == *final(self) && v@ == concat_all(outs) && forall|j: int|
                    0 <= j < chunks@.len() ==> #[trigger] states[j].spec_update(
                        chunk_views(chunks@)[j],
                        Ok(outs[j]),
                        states[j + 1],
                    ),
            r matches Err(e) ==> exists|states: Seq<Self>, outs: Seq<Seq<u8>>|
                #![trigger states.len(), outs.len()]
                0 < states.len() <= chunks@.len() && outs.len() == states.len() - 1 && states[0] == *old(self)
                    && (forall|j: int|
                    0 <= j < states.len() - 1 ==> #[trigger] states[j].spec_update(
                        chunk_views(chunks@)[j],
                        Ok(outs[j]),
                        states[j + 1],
                    )) && states.last().spec_update(chunk_views(chunks@)[states.len() - 1], Err(e), *final(self)),
    {
        let mut result: Vec<u8> = Vec::new();
        let mut i: usize = 0;
        let ghost mut states: Seq<Self> = seq![*self];
        let ghost mut outs: Seq<Seq<u8>> = Seq::empty();
        while i < chunks.len()
            invariant
                0 <= i <= chunks@.len(),
                states.len() == i + 1,
                outs.len() == i,
                states[0] == *old(self),
                states.last() == *self,
                result@ == concat_all(outs),
                forall|j: int|
                    0 <= j < i ==> #[trigger] states[j].spec_update(chunk_views(chunks@)[j], Ok(outs[j]), states[j + 1]),
            decreases chunks@.len() - i,
        {
            let ghost prev = *self;
            let u = self.update(chunks[i].as_slice());
            proof {
                assert(chunk_views(chunks@)[i as int] == chunks@[i as int]@);
                assert(prev.spec_update(chunk_views(chunks@)[i as int], byte_result(u), *self));
            }
            let encrypted_chunk = match u {
                Ok(v) => v,
                Err(e) => {
                    proof {
                        assert(states.last().spec_update(chunk_views(chunks@)[states.len() - 1], Err(e), *self));
                    }
                    return Err(e);
                },
            };
            append_bytes(&mut result, encrypted_chunk.as_slice());
            proof {
                let old_states = states;
                let old_outs = outs;
                states = states.push(*self);
                outs = outs.push(encrypted_chunk@);
                assert(outs.drop_last() =~= old_outs);
                assert forall|j: int| 0 <= j < i + 1 implies #[trigger] states[j].spec_update(
                    chunk_views(chunks@)[j],
                    Ok(outs[j]),
                    states[j + 1],
                ) by {
                    if j < i {
                        assert(states[j] == old_states[j]);
                        assert(states[j + 1] == old_states[j + 1]);
                        assert(outs[j] == old_outs[j]);
                    } else {
                        assert(states[j] == prev);
                        assert(states[j + 1] == *self);
                    }
                }
            }
            i = i + 1;
        }
        Ok(result)
    }

    /// Mechanism parameters (none, by default).
    fn mechanism_params(&self) -> (r: Vec<(String, Vec<u8>)>)
        default_ensures
            r@.len() == 0,
    {
        Vec::new()
    }

    /// Setting parameters is not supported unless an implementation offers
    /// it.
    fn set_mechanism_params(&mut self, params: Vec<(String, Vec<u8>)>) -> (r: BackendResult<()>) {
        unsupported_err("parameter setting not supported")
    }

    /// The largest plaintext, for the RSA mechanisms; no limit otherwise.
    fn max_data_size(&self) -> (r: Option<usize>)
        ensures
            r matches Some(n) ==> encrypt_max_data(self.spec_mechanism(), self.spec_key_size() as nat) == Some(n as nat),
            r is None <==> encrypt_max_data(self.spec_mechanism(), self.spec_key_size() as nat) is None,
    {
        match self.mechanism() {
            Mechanism::RsaPkcs1 { digest: None } => Some((self.key_size() / 8).saturating_sub(11)),
            Mechanism::RsaOaep { .. } => Some((self.key_size() / 8).saturating_sub(66)),
            Mechanism::RsaX509 => Some(self.key_size() / 8),
            _ => None,
        }
    }

    /// Whether a plaintext of `data_size` bytes is within the limit.
    fn is_valid_data_size(&self, data_size: usize) -> (r: bool)
        ensures
            r == (match encrypt_max_data(self.spec_mechanism(), self.spec_key_size() as nat) {
                Some(m) => data_size <= m,
                None => true,
            }),
    {
        match self.max_data_size() {
            Some(max_size) => data_size <= max_size,
            None => true,
        }
    }

    /// The block size: 16 for AES, none otherwise.
    fn block_size(&self) -> (r: Option<usize>)
        default_ensures
            r == mech_block_size(self.spec_mechanism()),
    {
        match self.mechanism() {
            Mechanism::Aes { .. } => Some(16),
            _ => None,
        }
    }

    /// Whether the mechanism is an AEAD cipher.
    fn is_aead(&self) -> (r: bool)
        ensures
            r == mech_is_aead(self.spec_mechanism()),
    {
        match self.mechanism() {
            Mechanism::Aes { mode: AesMode::Gcm, .. } => true,
            Mechanism::Aes { mode: AesMode::Ccm, .. } => true,
            Mechanism::ChaCha20Poly1305 => true,
            _ => false,
        }
    }

    /// Additional authenticated data is not supported unless an implementation
    /// offers it.
    fn set_aad(&mut self, aad: &[u8]) -> (r: BackendResult<()>)
        default_ensures
            r matches Err(e) && unsupported(e, aead_msg(mech_is_aead(old(self).spec_mechanism()), "AAD setting not implemented"@)),
            *final(self) == *old(self),
    {
        if self.is_aead() {
            unsupported_err("AAD setting not implemented")
        } else {
            unsupported_err("not an AEAD cipher")
        }
    }

    /// Tag retrieval is not supported unless an implementation offers it.
    fn get_tag(&self) -> (r: BackendResult<Vec<u8>>)
        default_ensures
            r matches Err(e) && unsupported(e, "tag retrieval not supported"@),
    {
        unsupported_err("tag retrieval not supported")
    }

    /// The ciphertext size for `input_size` bytes of plaintext.
    /// For AES-ECB and AES-CBC the block size is the one `block_size` gives
    /// (16 where it gives none).
    fn output_size(&self, input_size: usize) -> (r: usize)
        requires
            mech_padded_block(self.spec_mechanism()) ==> forall|bs: Option<usize>|
                #[trigger] call_ensures(Self::block_size, (self,), bs) ==> match bs {
                    Some(b) => b > 0 && input_size + b <= usize::MAX,
                    None => input_size + 16 <= usize::MAX,
                },
            (self.spec_mechanism() matches Mechanism::Aes { mode: AesMode::Gcm, .. }
                || self.spec_mechanism() is ChaCha20Poly1305) ==> input_size + 16 <= usize::MAX,
        default_ensures
            mech_padded_block(self.spec_mechanism()) ==> exists|bs: Option<usize>|
                #[trigger] call_ensures(Self::block_size, (self,), bs) && r == encrypt_output_size(
                    self.spec_mechanism(),
                    self.spec_key_size() as nat,
                    match bs {
                        Some(b) => b as nat,
                        None => 16,
                    },
                    input_size as nat,
                ),
            !mech_padded_block(self.spec_mechanism()) ==> r == encrypt_output_size(
                self.spec_mechanism(),
                self.spec_key_size() as nat,
                16,
                input_size as nat,
            ),
    {
        match self.mechanism() {
            Mechanism::RsaPkcs1 { .. } | Mechanism::RsaOaep { .. } | Mechanism::RsaX509 => self.key_size() / 8,
            Mechanism::Aes { mode: AesMode::Ecb, .. } | Mechanism::Aes { mode: AesMode::Cbc, .. } => {
                let bs = self.block_size();
                proof {
                    assert(call_ensures(Self::block_size, (self,), bs));
                }
                let block_size = match bs {
                    Some(b) => b,
                    None => 16,
                };
                let blocks = (input_size + block_size) / block_size;
                proof {
                    assert(blocks * block_size <= input_size + block_size) by (nonlinear_arith)
                        requires
                            blocks == (input_size + block_size) as int / block_size as int,
                            block_size > 0,
                    ;
                }
                blocks * block_size
            },
            Mechanism::Aes { mode: AesMode::Gcm, .. } => input_size + 16,
            Mechanism::ChaCha20Poly1305 => input_size + 16,
            _ => input_size,
        }
    }
}

/// The largest ciphertext of a decryption for a key of `bits` bits: one key
/// block for the RSA mechanisms.
pub open spec fn decrypt_max_ciphertext(m: Mechanism, bits: nat) -> Option<nat> {
    match m {
        Mechanism::RsaPkcs1 { .. } | Mechanism::RsaOaep { .. } | Mechanism::RsaX509 => Some(bits / 8),
        _ => None,
    }
}

/// The plaintext size of `input` bytes of ciphertext: the key block less the
/// padding for RSA, the input less the 16-byte tag for AES-GCM and
/// ChaCha20-Poly1305.
pub open spec fn decrypt_output_size(m: Mechanism, bits: nat, input: nat) -> nat {
    match m {
        Mechanism::RsaPkcs1 { .. } => sat_sub(bits / 8, 11),
        Mechanism::RsaOaep { .. } => sat_sub(bits / 8, 66),
        Mechanism::RsaX509 => bits / 8,
        Mechanism::Aes { mode: AesMode::Gcm, .. } => sat_sub(input, 16),
        Mechanism::ChaCha20Poly1305 => sat_sub(input, 16),
        _ => input,
    }
}

/// A decrypt context.
pub trait DecryptContext: Sized {
    /// The mechanism.
    spec fn spec_mechanism(&self) -> Mechanism;

    /// The key size in bits.
    spec fn spec_key_size(&self) -> usize;

    /// The mechanism.
    fn mechanism(&self) -> (r: &Mechanism)
        ensures
            *r == self.spec_mechanism(),
    ;

    /// The context's state.
    fn state(&self) -> ContextState;

    /// Whether finalizing now is within the implementation's domain.
    spec fn spec_finalize_ok(&self) -> bool;

    /// Whether finalizing after an update with `ciphertext` is within the
    /// implementation's domain.
    spec fn spec_update_then_finalize_ok(&self, ciphertext: Seq<u8>) -> bool;

    /// Whether decrypting `ciphertext` may give `r` (the plaintext produced)
    /// and leave the context as `next`.
    spec fn spec_update(&self, ciphertext: Seq<u8>, r: Result<Seq<u8>, BackendError>, next: Self) -> bool;

    /// Whether finishing may give `r`: the remaining plaintext, or an error.
    spec fn spec_finalize(&self, r: Result<Seq<u8>, BackendError>) -> bool;

    /// Decrypt more ciphertext; returns the plaintext produced so far.
    fn update(&mut self, ciphertext: &[u8]) -> (r: BackendResult<Vec<u8>>)
        ensures
            r is Ok && old(self).spec_update_then_finalize_ok(ciphertext@) ==> final(self).spec_finalize_ok(),
            old(self).spec_update(ciphertext@, byte_result(r), *final(self)),
    ;

    /// The remaining plaintext.
    fn finalize(self) -> (r: BackendResult<Vec<u8>>)
        requires
            self.spec_finalize_ok(),
        ensures
            self.spec_finalize(byte_result(r)),
    ;

    /// Decrypt `ciphertext` in one go: the update's output followed by the
    /// final output.
    fn decrypt(self, ciphertext: &[u8]) -> (r: BackendResult<Vec<u8>>)
        requires
            self.spec_update_then_finalize_ok(ciphertext@),
        ensures
            exists|u: Result<Seq<u8>, BackendError>, mid: Self|
                #[trigger] self.spec_update(ciphertext@, u, mid) && match u {
                    Err(e) => byte_result(r) == Err::<Seq<u8>, BackendError>(e),
                    Ok(head) => exists|f: Result<Seq<u8>, BackendError>|
                        #[trigger] mid.spec_finalize(f) && byte_result(r) == match f {
                            Ok(tail) => Ok::<Seq<u8>, BackendError>(head + tail),
                            Err(e) => Err::<Seq<u8>, BackendError>(e),
                        },
                },
    {
        let ghost start = self;
        let mut ctx = self;
        let u = ctx.update(ciphertext);
        let ghost mid = ctx;
        proof {
            assert(start.spec_update(ciphertext@, byte_result(u), mid));
        }
        let mut result = match u {
            Ok(v) => v,
            Err(e) => return Err(e),
        };
        let f = ctx.finalize();
        proof {
            assert(mid.spec_finalize(byte_result(f)));
        }
        let final_data = match f {
            Ok(v) => v,
            Err(e) => return Err(e),
        };
        append_bytes(&mut result, final_data.as_slice());
        Ok(result)
    }

    /// Bytes processed so far (0 unless an implementation counts them).
    fn bytes_processed(&self) -> (r: u64)
        default_ensures
            r == 0,
    {
        0
    }

    /// Whether data may be fed in several updates: AES and ChaCha20.
    fn supports_incremental(&self) -> (r: bool)
        ensures
            r == mech_incremental_cipher(self.spec_mechanism()),
    {
        match self.mechanism() {
            Mechanism::Aes { .. } => true,
            Mechanism::ChaCha20 => true,
            Mechanism::ChaCha20Poly1305 => true,
            _ => false,
        }
    }

    /// Whether single-part decryption is supported (yes, by default).
    fn supports_single_part(&self) -> (r: bool)
        default_ensures
            r,
    {
        true
    }

    /// The key's algorithm.
    fn key_algorithm(&self) -> KeyAlgorithm;

    /// The key size in bits.
    fn key_size(&self) -> (r: usize)
        ensures
            r == self.spec_key_size(),
    ;

    /// Start over; not supported unless an implementation offers it.
    fn reset(&mut self) -> (r: BackendResult<()>)
        default_ensures
            r matches Err(e) && unsupported(e, "context reset not supported"@),
    {
        unsupported_err("context reset not supported")
    }

    /// Whether reset is supported (no, by default).
    fn supports_reset(&self) -> (r: bool)
        default_ensures
            !r,
    {
        false
    }

    /// Decrypt each chunk in turn and concatenate the outputs, stopping at the
    /// first failure: on success the context has gone through one
    /// successful update per chunk and the result is their outputs in
    /// order; on failure, through successful updates with the chunks before
    /// the one whose update failed.
    fn update_chunks(&mut self, chunks: &Vec<Vec<u8>>) -> (r: BackendResult<Vec<u8>>)
        ensures
            r matches Ok(v) ==> exists|states: Seq<Self>, outs: Seq<Seq<u8>>|
                #![trigger states.len(), outs.len()]
                states.len() == chunks@.len() + 1 && outs.len() == chunks@.len() && states[0] == *old(self)
                    && states.last() == *final(self) && v@ == concat_all(outs) && forall|j: int|
                    0 <= j < chunks@.len() ==> #[trigger] states[j].spec_update(
                        chunk_views(chunks@)[j],
                        Ok(outs[j]),
                        states[j + 1],
                    ),
            r matches Err(e) ==> exists|states: Seq<Self>, outs: Seq<Seq<u8>>|
                #![trigger states.len(), outs.len()]
                0 < states.len() <= chunks@.len() && outs.len() == states.len() - 1 && states[0] == *old(self)
                    && (forall|j: int|
                    0 <= j < states.len() - 1 ==> #[trigger] states[j].spec_update(
                        chunk_views(chunks@)[j],
                        Ok(outs[j]),
                        states[j + 1],
                    )) && states.last().spec_update(chunk_views(chunks@)[states.len() - 1], Err(e), *final(self)),
    {
        let mut result: Vec<u8> = Vec::new();
        let mut i: usize = 0;
        let ghost mut states: Seq<Self> = seq![*self];
        let ghost mut outs: Seq<Seq<u8>> = Seq::empty();
        while i < chunks.len()
            invariant
                0 <= i <= chunks@.len(),
                states.len() == i + 1,
                outs.len() == i,
                states[0] == *old(self),
                states.last() == *self,
                result@ == concat_all(outs),
                forall|j: int|
                    0 <= j < i ==> #[trigger] states[j].spec_update(chunk_views(chunks@)[j], Ok(outs[j]), states[j + 1]),
            decreases chunks@.len() - i,
        {
            let ghost prev = *self;
            let u = self.update(chunks[i].as_slice());
            proof {
                assert(chunk_views(chunks@)[i as int] == chunks@[i as int]@);
                assert(prev.spec_update(chunk_views(chunks@)[i as int], byte_result(u), *self));
            }
            let decrypted_chunk = match u {
                Ok(v) => v,
                Err(e) => {
                    proof {
                        assert(states.last().spec_update(chunk_views(chunks@)[states.len() - 1], Err(e), *self));
                    }
                    return Err(e);
                },
            };
            append_bytes(&mut result, decrypted_chunk.as_slice());
            proof {
                let old_states = states;
                let old_outs = outs;
                states = states.push(*self);
                outs = outs.push(decrypted_chunk@);
                assert(outs.drop_last() =~= old_outs);
                assert forall|j: int| 0 <= j < i + 1 implies #[trigger] states[j].spec_update(
                    chunk_views(chunks@)[j],
                    Ok(outs[j]),
                    states[j + 1],
                ) by {
                    if j < i {
                        assert(states[j] == old_states[j]);
                        assert(states[j + 1] == old_states[j + 1]);
                        assert(outs[j] == old_outs[j]);
                    } else {
                        assert(states[j] == prev);
                        assert(states[j + 1] == *self);
                    }
                }
            }
            i = i + 1;
        }
        Ok(result)
    }

    /// Mechanism parameters (none, by default).
    fn mechanism_params(&self) -> (r: Vec<(String, Vec<u8>)>)
        default_ensures
            r@.len() == 0,
    {
        Vec::new()
    }

    /// Setting parameters is not supported unless an implementation offers
    /// it.
    fn set_mechanism_params(&mut self, params: Vec<(String, Vec<u8>)>) -> (r: BackendResult<()>) {
        unsupported_err("parameter setting not supported")
    }

    /// The largest ciphertext: one key block for RSA; no limit otherwise.
    fn max_ciphertext_size(&self) -> (r: Option<usize>)
        ensures
            r matches Some(n) ==> decrypt_max_ciphertext(self.spec_mechanism(), self.spec_key_size() as nat) == Some(n as nat),
            r is None <==> decrypt_max_ciphertext(self.spec_mechanism(), self.spec_key_size() as nat) is None,
    {
        match self.mechanism() {
            Mechanism::RsaPkcs1 { .. } | Mechanism::RsaOaep { .. } | Mechanism::RsaX509 => Some(self.key_size() / 8),
            _ => None,
        }
    }

    /// Whether a ciphertext of `ciphertext_size` bytes is within the limit.
    fn is_valid_ciphertext_size(&self, ciphertext_size: usize) -> (r: bool)
        ensures
            r == (match decrypt_max_ciphertext(self.spec_mechanism(), self.spec_key_size() as nat) {
                Some(m) => ciphertext_size <= m,
                None => true,
            }),
    {
        match self.max_ciphertext_size() {
            Some(max_size) => ciphertext_size <= max_size,
            None => true,
        }
    }

    /// The block size: 16 for AES, none otherwise.
    fn block_size(&self) -> (r: Option<usize>)
        ensures
            r == mech_block_size(self.spec_mechanism()),
    {
        match self.mechanism() {
            Mechanism::Aes { .. } => Some(16),
            _ => None,
        }
    }

    /// Whether the mechanism is an AEAD cipher.
    fn is_aead(&self) -> (r: bool)
        ensures
            r == mech_is_aead(self.spec_mechanism()),
    {
        match self.mechanism() {
            Mechanism::Aes { mode: AesMode::Gcm, .. } => true,
            Mechanism::Aes { mode: AesMode::Ccm, .. } => true,
            Mechanism::ChaCha20Poly1305 => true,
            _ => false,
        }
    }

    /// Additional authenticated data is not supported unless an implementation
    /// offers it.
    fn set_aad(&mut self, aad: &[u8]) -> (r: BackendResult<()>)
        default_ensures
            r matches Err(e) && unsupported(e, aead_msg(mech_is_aead(old(self).spec_mechanism()), "AAD setting not implemented"@)),
            *final(self) == *old(self),
    {
        if self.is_aead() {
            unsupported_err("AAD setting not implemented")
        } else {
            unsupported_err("not an AEAD cipher")
        }
    }

    /// Setting the tag is not supported unless an implementation offers it.
    fn set_tag(&mut self, tag: &[u8]) -> (r: BackendResult<()>)
        default_ensures
            r matches Err(e) && unsupported(e, aead_msg(mech_is_aead(old(self).spec_mechanism()), "tag setting not implemented"@)),
            *final(self) == *old(self),
    {
        if self.is_aead() {
            unsupported_err("tag setting not implemented")
        } else {
            unsupported_err("not an AEAD cipher")
        }
    }

    /// The plaintext size for `ciphertext_size` bytes of ciphertext.
    fn output_size(&self, ciphertext_size: usize) -> (r: usize)
        default_ensures
            r == decrypt_output_size(self.spec_mechanism(), self.spec_key_size() as nat, ciphertext_size as nat),
    {
        match self.mechanism() {
            Mechanism::RsaPkcs1 { .. } => (self.key_size() / 8).saturating_sub(11),
            Mechanism::RsaOaep { .. } => (self.key_size() / 8).saturating_sub(66),
            Mechanism::RsaX509 => self.key_size() / 8,
            Mechanism::Aes { mode: AesMode::Gcm, .. } => ciphertext_size.saturating_sub(16),
            Mechanism::ChaCha20Poly1305 => ciphertext_size.saturating_sub(16),
            _ => ciphertext_size,
        }
    }

    /// Tag verification is not supported unless an implementation offers it.
    fn verify_tag(&self, tag: &[u8]) -> (r: BackendResult<bool>)
        default_ensures
            r matches Err(e) && unsupported(e, "tag verification not supported"@),
    {
        unsupported_err("tag verification not supported")
    }
}

} // verus!
