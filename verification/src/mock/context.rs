//! The mock's operation contexts: sign, verify, encrypt, decrypt and digest.
//! In deterministic mode their outputs are fixed functions of the inputs.

use vstd::prelude::*;
use crate::digests::{sha256, sha384, sha512, sha2_sha256, sha2_sha384, sha2_sha512};
use crate::mock::config::{MockConfig, config_delay, config_injects, seeded_bytes};
use crate::mock::key::MockKey;
use crate::rng::random_bytes;
use crate::traits::context::{DecryptContext, DigestContext, EncryptContext, VerifyContext};
use crate::traits::key::Key;
use crate::types::context::ContextState;
use crate::types::error::{BackendError, BackendResult};
use crate::types::key::{KeyAlgorithm, alg_is_rsa, key_bits};
use crate::types::mechanism::{DigestAlgorithm, Mechanism, digest_debug, mech_copy_of};

verus! {

/// The message of an error injected into operation `op`.
pub open spec fn injected_msg(op: Seq<char>) -> Seq<char> {
    "Injected error for "@ + op
}

/// What a context with configuration view `c` answers before operation `op`:
/// an injected error, or nothing.
pub open spec fn injected_error(c: <MockConfig as View>::V, op: Seq<char>, r: Option<BackendError>) -> bool {
    &&& config_injects(c, op) ==> (r matches Some(BackendError::MockError(m)) && m@ == injected_msg(op))
    &&& !config_injects(c, op) ==> r is None
}

/// The injected error for `op` under `config`, if any.
pub fn injected_error_for(config: &MockConfig, op: &str) -> (r: Option<BackendError>)
    ensures
        injected_error(config@, op@, r),
{
    if config.injects_error(op) {
        Some(BackendError::MockError(String::from_str("Injected error for ").concat(op)))
    } else {
        None
    }
}

/// State shared by the mock's contexts.
#[derive(Debug)]
pub struct MockContext {
    pub config: MockConfig,
    pub operation_count: usize,
}

impl MockContext {
    /// A context with a copy of `config` and no operations counted.
    pub fn new(config: &MockConfig) -> (r: Self)
        ensures
            r.config@ == config@,
            r.config.test_data@ == config.test_data@,
            r.operation_count == 0,
    {
        MockContext { config: config.clone(), operation_count: 0 }
    }

    /// Count one more operation.
    pub fn increment_operations(&mut self)
        requires
            old(self).operation_count < usize::MAX,
        ensures
            final(self).operation_count == old(self).operation_count + 1,
            final(self).config@ == old(self).config@,
    {
        self.operation_count = self.operation_count + 1;
    }

    /// The number of operations counted.
    pub fn operation_count(&self) -> (r: usize)
        ensures
            r == self.operation_count,
    {
        self.operation_count
    }

    /// The error to inject into operation `op`, if error injection names it.
    pub fn should_inject_error(&self, operation: &str) -> (r: Option<BackendError>)
        ensures
            injected_error(self.config@, operation@, r),
    {
        injected_error_for(&self.config, operation)
    }

    /// The simulated delay of operation `op`, in milliseconds.
    pub fn operation_delay(&self, operation: &str) -> (r: Option<u64>)
        ensures
            r == config_delay(self.config@, operation@),
    {
        self.config.operation_delay(operation)
    }

    /// `length` bytes: byte `i` is `(seed + i) mod 256` in deterministic mode,
    /// random otherwise.
    pub fn generate_deterministic_data(&self, length: usize, seed: u8) -> (r: Vec<u8>)
        ensures
            r@.len() == length,
            self.config.deterministic ==> r@ == seeded_bytes(seed as int, length as nat),
    {
        crate::mock::config::seeded_or_random(self.config.deterministic, seed as u64, length)
    }
}

/// The signature size in bytes that the mock uses for a mechanism and key
/// algorithm.
pub open spec fn mock_sig_size(m: Mechanism, a: KeyAlgorithm) -> nat {
    match m {
        Mechanism::RsaPkcs1 { .. } | Mechanism::RsaPkcs1Pss { .. } => match a {
            KeyAlgorithm::Rsa2048 => 256,
            KeyAlgorithm::Rsa3072 => 384,
            KeyAlgorithm::Rsa4096 => 512,
            _ => 256,
        },
        Mechanism::Ecdsa { .. } => match a {
            KeyAlgorithm::EcdsaP256 => 64,
            KeyAlgorithm::EcdsaP384 => 96,
            _ => 64,
        },
        _ => 64,
    }
}

/// The signature size for a mechanism and key algorithm.
pub fn sig_size_for(m: &Mechanism, a: KeyAlgorithm) -> (r: usize)
    ensures
        r == mock_sig_size(*m, a),
{
    match m {
        Mechanism::RsaPkcs1 { .. } | Mechanism::RsaPkcs1Pss { .. } => match a {
            KeyAlgorithm::Rsa2048 => 256,
            KeyAlgorithm::Rsa3072 => 384,
            KeyAlgorithm::Rsa4096 => 512,
            _ => 256,
        },
        Mechanism::Ecdsa { .. } => match a {
            KeyAlgorithm::EcdsaP256 => 64,
            KeyAlgorithm::EcdsaP384 => 96,
            _ => 64,
        },
        _ => 64,
    }
}

/// The deterministic mock signature of `size` bytes over data of length
/// `data_len` with key material of length `key_len`: byte `i` is
/// `(data_len + i + key_len) mod 256`.
pub open spec fn mock_signature(data_len: nat, key_len: nat, size: nat) -> Seq<u8> {
    Seq::new(size, |i: int| ((data_len + i + key_len) % 256) as u8)
}

/// The deterministic mock signature, computed without overflow.
pub fn mock_signature_bytes(data_len: usize, key_len: usize, size: usize) -> (r: Vec<u8>)
    ensures
        r@ == mock_signature(data_len as nat, key_len as nat, size as nat),
{
    let mut signature: Vec<u8> = Vec::with_capacity(size);
    let base: usize = (data_len % 256 + key_len % 256) % 256;
    let mut i: usize = 0;
    while i < size
        invariant
            0 <= i <= size,
            base == (data_len % 256 + key_len % 256) % 256,
            signature@ == mock_signature(data_len as nat, key_len as nat, i as nat),
        decreases size - i,
    {
        let b: u8 = ((base + i % 256) % 256) as u8;
        proof {
            assert((data_len + i + key_len) % 256 == ((data_len % 256 + key_len % 256) % 256 + i % 256) % 256)
                by (nonlinear_arith);
        }
        signature.push(b);
        proof {
            assert(signature@ =~= mock_signature(data_len as nat, key_len as nat, (i + 1) as nat));
        }
        i = i + 1;
    }
    signature
}

/// A mock sign context: it collects the data and signs it at the end.
#[derive(Debug)]
pub struct MockSignContext {
    pub mechanism: Mechanism,
    pub key: MockKey,
    pub context: MockContext,
    pub data_buffer: Vec<u8>,
}

impl MockSignContext {
    /// A sign context; the key must be allowed to sign.
    pub fn new(mechanism: Mechanism, key: MockKey, config: &MockConfig) -> (r: BackendResult<Self>)
        ensures
            !key.spec_usage().sign ==> (r matches Err(BackendError::InvalidKey(m)) && m@
                == "Key cannot be used for signing"@),
            key.spec_usage().sign ==> (r matches Ok(c) && c.mechanism == mechanism && c.key == key
                && c.context.config@ == config@ && c.context.operation_count == 0 && c.data_buffer@.len() == 0),
    {
        if !key.can_sign() {
            return Err(BackendError::InvalidKey(String::from_str("Key cannot be used for signing")));
        }
        Ok(MockSignContext { mechanism, key, context: MockContext::new(config), data_buffer: Vec::new() })
    }

    /// The signature size of this context's mechanism and key.
    pub open spec fn spec_sig_size(&self) -> nat {
        mock_sig_size(self.mechanism, self.key.spec_algorithm())
    }

    /// The mock signature over `data`: in deterministic mode the fixed pattern
    /// of `mock_signature`; random bytes of the same size otherwise.
    pub fn generate_mock_signature(&self, data: &[u8]) -> (r: Vec<u8>)
        ensures
            r@.len() == self.spec_sig_size(),
            self.context.config.deterministic ==> r@ == mock_signature(
                data@.len(),
                self.key.spec_key_data().len(),
                self.spec_sig_size(),
            ),
    {
        let sig_size = sig_size_for(&self.mechanism, self.key.algorithm());
        if self.context.config.deterministic {
            mock_signature_bytes(data.len(), self.key.key_data().len(), sig_size)
        } else {
            self.context.generate_deterministic_data(sig_size, 0x55)
        }
    }

    /// The mechanism.
    pub fn mechanism(&self) -> (r: &Mechanism)
        ensures
            *r == self.mechanism,
    {
        &self.mechanism
    }

    /// Append `data` to what is to be signed.
    pub fn update(&mut self, data: &[u8]) -> (r: BackendResult<()>)
        ensures
            injected_error(old(self).context.config@, "sign_update"@, match r {
                Err(e) => Some(e),
                Ok(_) => None,
            }),
            r is Ok ==> final(self).data_buffer@ == old(self).data_buffer@ + data@,
            r is Err ==> final(self).data_buffer@ == old(self).data_buffer@,
            final(self).mechanism == old(self).mechanism,
            final(self).key == old(self).key,
            final(self).context == old(self).context,
    {
        match self.context.should_inject_error("sign_update") {
            Some(e) => return Err(e),
            None => {},
        }
        let mut i: usize = 0;
        let ghost start = self.data_buffer@;
        while i < data.len()
            invariant
                0 <= i <= data@.len(),
                self.data_buffer@ == start + data@.subrange(0, i as int),
                self.mechanism == old(self).mechanism,
                self.key == old(self).key,
                self.context == old(self).context,
            decreases data@.len() - i,
        {
            self.data_buffer.push(data[i]);
            proof {
                assert(start + data@.subrange(0, i + 1) =~= (start + data@.subrange(0, i as int)).push(data@[i as int]));
            }
            i = i + 1;
        }
        proof {
            assert(data@.subrange(0, data@.len() as int) =~= data@);
        }
        Ok(())
    }

    /// The signature over everything collected.
    pub fn finalize(self) -> (r: BackendResult<Vec<u8>>)
        ensures
            injected_error(self.context.config@, "sign_finalize"@, match r {
                Err(e) => Some(e),
                Ok(_) => None,
            }),
            r matches Ok(s) ==> s@.len() == self.spec_sig_size() && (self.context.config.deterministic ==> s@
                == mock_signature(self.data_buffer@.len(), self.key.spec_key_data().len(), self.spec_sig_size())),
    {
        match self.context.should_inject_error("sign_finalize") {
            Some(e) => return Err(e),
            None => {},
        }
        Ok(self.generate_mock_signature(self.data_buffer.as_slice()))
    }

    /// The signature over `data` alone.
    pub fn sign_oneshot(&self, data: &[u8]) -> (r: BackendResult<Vec<u8>>)
        ensures
            injected_error(self.context.config@, "sign_oneshot"@, match r {
                Err(e) => Some(e),
                Ok(_) => None,
            }),
            r matches Ok(s) ==> s@.len() == self.spec_sig_size() && (self.context.config.deterministic ==> s@
                == mock_signature(data@.len(), self.key.spec_key_data().len(), self.spec_sig_size())),
    {
        match self.context.should_inject_error("sign_oneshot") {
            Some(e) => return Err(e),
            None => {},
        }
        Ok(self.generate_mock_signature(data))
    }

    /// The largest signature this context produces.
    pub fn max_signature_size(&self) -> (r: usize)
        ensures
            r == self.spec_sig_size(),
    {
        sig_size_for(&self.mechanism, self.key.algorithm())
    }

    /// Discard what was collected.
    pub fn reset(&mut self) -> (r: BackendResult<()>)
        ensures
            injected_error(old(self).context.config@, "sign_reset"@, match r {
                Err(e) => Some(e),
                Ok(_) => None,
            }),
            r is Ok ==> final(self).data_buffer@.len() == 0,
            r is Err ==> final(self).data_buffer@ == old(self).data_buffer@,
            final(self).mechanism == old(self).mechanism,
            final(self).key == old(self).key,
            final(self).context == old(self).context,
    {
        match self.context.should_inject_error("sign_reset") {
            Some(e) => return Err(e),
            None => {},
        }
        self.data_buffer.clear();
        Ok(())
    }
}

/// The smallest signature the mock accepts outside deterministic mode.
pub open spec fn mock_min_sig_size(m: Mechanism) -> nat {
    match m {
        Mechanism::RsaPkcs1 { .. } | Mechanism::RsaPkcs1Pss { .. } => 128,
        _ => 32,
    }
}

/// Whether the mock accepts `sig` over data of length `data_len`: in
/// deterministic mode exactly the mock signature; otherwise any signature
/// that is long enough and not all zeros.
pub open spec fn mock_accepts(
    deterministic: bool,
    m: Mechanism,
    a: KeyAlgorithm,
    key_len: nat,
    data_len: nat,
    sig: Seq<u8>,
) -> bool {
    if deterministic {
        sig == mock_signature(data_len, key_len, mock_sig_size(m, a))
    } else {
        sig.len() >= mock_min_sig_size(m) && exists|i: int| 0 <= i < sig.len() && sig[i] != 0
    }
}

/// A mock verify context: it collects the data and checks the signature at
/// the end.
#[derive(Debug)]
pub struct MockVerifyContext {
    pub mechanism: Mechanism,
    pub key: MockKey,
    pub context: MockContext,
    pub data_buffer: Vec<u8>,
}

impl MockVerifyContext {
    /// A verify context; the key must be allowed to verify.
    pub fn new(mechanism: Mechanism, key: MockKey, config: &MockConfig) -> (r: BackendResult<Self>)
        ensures
            !key.spec_usage().verify ==> (r matches Err(BackendError::InvalidKey(m)) && m@
                == "Key cannot be used for verification"@),
            key.spec_usage().verify ==> (r matches Ok(c) && c.mechanism == mechanism && c.key == key
                && c.context.config@ == config@ && c.context.operation_count == 0 && c.data_buffer@.len() == 0),
    {
        if !key.can_verify() {
            return Err(BackendError::InvalidKey(String::from_str("Key cannot be used for verification")));
        }
        Ok(MockVerifyContext { mechanism, key, context: MockContext::new(config), data_buffer: Vec::new() })
    }
    /// Whether `signature` is accepted over `data`.
    pub fn verify_mock_signature(&self, data: &[u8], signature: &[u8]) -> (r: bool)
        ensures
            r == mock_accepts(
                self.context.config.deterministic,
                self.mechanism,
                self.key.spec_algorithm(),
                self.key.spec_key_data().len(),
                data@.len(),
                signature@,
            ),
    {
        if self.context.config.deterministic {
            let expected_sig_size = sig_size_for(&self.mechanism, self.key.algorithm());
            if signature.len() != expected_sig_size {
                return false;
            }
            let expected_signature = mock_signature_bytes(data.len(), self.key.key_data().len(), expected_sig_size);
            let mut i: usize = 0;
            while i < signature.len()
                invariant
                    0 <= i <= signature@.len(),
                    expected_signature@.len() == signature@.len(),
                    expected_signature@ == mock_signature(
                        data@.len(),
                        self.key.spec_key_data().len(),
                        mock_sig_size(self.mechanism, self.key.spec_algorithm()),
                    ),
                    self.context.config.deterministic,
                    forall|j: int| 0 <= j < i ==> signature@[j] == expected_signature@[j],
                decreases signature@.len() - i,
            {
                if signature[i] != expected_signature[i] {
                    proof {
                        assert(signature@[i as int] != expected_signature@[i as int]);
                        assert(signature@ != expected_signature@);
                    }
                    return false;
                }
                i = i + 1;
            }
            proof {
                assert(signature@ =~= expected_signature@);
            }
            true
        } else {
            let min_size: usize = match self.mechanism {
                Mechanism::RsaPkcs1 { .. } | Mechanism::RsaPkcs1Pss { .. } => 128,
                Mechanism::Ecdsa { .. } => 32,
                _ => 32,
            };
            if signature.len() < min_size {
                return false;
            }
            let mut i: usize = 0;
            while i < signature.len()
                invariant
                    0 <= i <= signature@.len(),
                    !self.context.config.deterministic,
                    signature@.len() >= mock_min_sig_size(self.mechanism),
                    forall|j: int| 0 <= j < i ==> signature@[j] == 0,
                decreases signature@.len() - i,
            {
                if signature[i] != 0 {
                    proof {
                        assert(signature@[i as int] != 0);
                    }
                    return true;
                }
                i = i + 1;
            }
            false
        }
    }
}

impl VerifyContext for MockVerifyContext {
    closed spec fn spec_mechanism(&self) -> Mechanism {
        self.mechanism
    }

    /// The injected error, if any; otherwise `data` is collected.
    open spec fn spec_update(&self, data: Seq<u8>, r: BackendResult<()>, next: Self) -> bool {
        &&& injected_error(self.context.config@, "verify_update"@, match r {
            Err(e) => Some(e),
            Ok(_) => None,
        })
        &&& r is Ok ==> next.data_buffer@ == self.data_buffer@ + data
        &&& r is Err ==> next.data_buffer@ == self.data_buffer@
        &&& next.mechanism == self.mechanism
        &&& next.key == self.key
        &&& next.context == self.context
    }

    /// The injected error, if any; otherwise whether the mock accepts
    /// `signature` over what was collected.
    open spec fn spec_finalize(&self, signature: Seq<u8>, r: BackendResult<bool>) -> bool {
        &&& injected_error(self.context.config@, "verify_finalize"@, match r {
            Err(e) => Some(e),
            Ok(_) => None,
        })
        &&& r matches Ok(b) ==> b == mock_accepts(
            self.context.config.deterministic,
            self.mechanism,
            self.key.spec_algorithm(),
            self.key.spec_key_data().len(),
            self.data_buffer@.len(),
            signature,
        )
    }

    closed spec fn spec_key_size(&self) -> usize {
        key_bits(self.key.spec_algorithm()) as usize
    }

    /// The mechanism.
    fn mechanism(&self) -> (r: &Mechanism)
        ensures
            *r == self.mechanism,
    {
        &self.mechanism
    }
    /// The expected signature size.
    fn signature_size(&self) -> (r: usize)
        ensures
            r == mock_sig_size(self.mechanism, self.key.spec_algorithm()),
    {
        sig_size_for(&self.mechanism, self.key.algorithm())
    }
    /// Always in the multi-part state.
    fn state(&self) -> (r: ContextState)
        ensures
            r == ContextState::MultiPartActive,
    {
        ContextState::MultiPartActive
    }
    /// Append `data` to what is to be verified.
    fn update(&mut self, data: &[u8]) -> (r: BackendResult<()>)
        ensures
            injected_error(old(self).context.config@, "verify_update"@, match r {
                Err(e) => Some(e),
                Ok(_) => None,
            }),
            r is Ok ==> final(self).data_buffer@ == old(self).data_buffer@ + data@,
            r is Err ==> final(self).data_buffer@ == old(self).data_buffer@,
            final(self).mechanism == old(self).mechanism,
            final(self).key == old(self).key,
            final(self).context == old(self).context,
    {
        match self.context.should_inject_error("verify_update") {
            Some(e) => return Err(e),
            None => {},
        }
        let mut i: usize = 0;
        let ghost start = self.data_buffer@;
        while i < data.len()
            invariant
                0 <= i <= data@.len(),
                self.data_buffer@ == start + data@.subrange(0, i as int),
                self.mechanism == old(self).mechanism,
                self.key == old(self).key,
                self.context == old(self).context,
            decreases data@.len() - i,
        {
            self.data_buffer.push(data[i]);
            proof {
                assert(start + data@.subrange(0, i + 1) =~= (start + data@.subrange(0, i as int)).push(data@[i as int]));
            }
            i = i + 1;
        }
        proof {
            assert(data@.subrange(0, data@.len() as int) =~= data@);
        }
        Ok(())
    }
    /// Whether `signature` is accepted over everything collected.
    fn finalize(self, signature: &[u8]) -> (r: BackendResult<bool>)
        ensures
            injected_error(self.context.config@, "verify_finalize"@, match r {
                Err(e) => Some(e),
                Ok(_) => None,
            }),
            r matches Ok(b) ==> b == mock_accepts(
                self.context.config.deterministic,
                self.mechanism,
                self.key.spec_algorithm(),
                self.key.spec_key_data().len(),
                self.data_buffer@.len(),
                signature@,
            ),
    {
        match self.context.should_inject_error("verify_finalize") {
            Some(e) => return Err(e),
            None => {},
        }
        Ok(self.verify_mock_signature(self.data_buffer.as_slice(), signature))
    }
    /// The key's algorithm.
    fn key_algorithm(&self) -> (r: KeyAlgorithm)
        ensures
            r == self.key.spec_algorithm(),
    {
        self.key.algorithm()
    }
    /// The key's size in bits.
    fn key_size(&self) -> (r: usize)
        ensures
            r == key_bits(self.key.spec_algorithm()),
    {
        self.key.key_size()
    }
    /// Discard what was collected.
    fn reset(&mut self) -> (r: BackendResult<()>)
        ensures
            injected_error(old(self).context.config@, "verify_reset"@, match r {
                Err(e) => Some(e),
                Ok(_) => None,
            }),
            r is Ok ==> final(self).data_buffer@.len() == 0,
            r is Err ==> final(self).data_buffer@ == old(self).data_buffer@,
            final(self).mechanism == old(self).mechanism,
            final(self).key == old(self).key,
            final(self).context == old(self).context,
    {
        match self.context.should_inject_error("verify_reset") {
            Some(e) => return Err(e),
            None => {},
        }
        self.data_buffer.clear();
        Ok(())
    }
    /// Reset is supported.
    fn supports_reset(&self) -> (r: bool)
        ensures
            r,
    {
        true
    }
}

/// Deterministic mock encryption and decryption: each byte XOR the key byte
/// at the same position modulo the key length.
pub open spec fn xor_cycle(data: Seq<u8>, key: Seq<u8>) -> Seq<u8> {
    Seq::new(data.len(), |i: int| data[i] ^ key[i % key.len() as int])
}

/// Each byte decremented by one, wrapping at zero.
pub open spec fn lowered(s: Seq<u8>) -> Seq<u8> {
    Seq::new(s.len(), |i: int| ((s[i] + 255) % 256) as u8)
}

/// XOR of `data` with the key repeated.
pub fn xor_with_key(data: &[u8], key: &[u8]) -> (r: Vec<u8>)
    requires
        key@.len() > 0 || data@.len() == 0,
    ensures
        r@ == xor_cycle(data@, key@),
{
    let mut out: Vec<u8> = Vec::with_capacity(data.len());
    let mut i: usize = 0;
    while i < data.len()
        invariant
            0 <= i <= data@.len(),
            key@.len() > 0 || data@.len() == 0,
            out@ == xor_cycle(data@, key@).subrange(0, i as int),
        decreases data@.len() - i,
    {
        let k = key[i % key.len()];
        out.push(data[i] ^ k);
        proof {
            assert(out@ =~= xor_cycle(data@, key@).subrange(0, i + 1));
        }
        i = i + 1;
    }
    proof {
        assert(xor_cycle(data@, key@).subrange(0, data@.len() as int) =~= xor_cycle(data@, key@));
    }
    out
}

/// Each byte decremented by one, wrapping.
pub fn lower_bytes(s: &[u8]) -> (r: Vec<u8>)
    ensures
        r@ == lowered(s@),
{
    let mut out: Vec<u8> = Vec::with_capacity(s.len());
    let mut i: usize = 0;
    while i < s.len()
        invariant
            0 <= i <= s@.len(),
            out@ == lowered(s@).subrange(0, i as int),
        decreases s@.len() - i,
    {
        out.push(s[i].wrapping_sub(1));
        proof {
            assert(out@ =~= lowered(s@).subrange(0, i + 1));
        }
        i = i + 1;
    }
    proof {
        assert(lowered(s@).subrange(0, s@.len() as int) =~= lowered(s@));
    }
    out
}

/// The mock encryption of `data`: XOR with the key material in deterministic
/// mode, each byte incremented otherwise.
pub open spec fn mock_encrypted(deterministic: bool, key: Seq<u8>, data: Seq<u8>) -> Seq<u8> {
    if deterministic {
        xor_cycle(data, key)
    } else {
        crate::mock::key::bumped(data)
    }
}

/// The mock decryption of `data`: XOR with the key material in deterministic
/// mode, each byte decremented otherwise.
pub open spec fn mock_decrypted(deterministic: bool, key: Seq<u8>, data: Seq<u8>) -> Seq<u8> {
    if deterministic {
        xor_cycle(data, key)
    } else {
        lowered(data)
    }
}

/// Whether the mock can process `data` with `key`: deterministic mode reads
/// the key at every position, so it needs key material for any data.
pub open spec fn mock_cipher_ok(deterministic: bool, key: Seq<u8>, data: Seq<u8>) -> bool {
    !deterministic || key.len() > 0 || data.len() == 0
}

/// The output size of the mock RSA encryption for a key algorithm.
pub open spec fn rsa_cipher_size(a: KeyAlgorithm) -> nat {
    match a {
        KeyAlgorithm::Rsa2048 => 256,
        KeyAlgorithm::Rsa3072 => 384,
        KeyAlgorithm::Rsa4096 => 512,
        _ => 256,
    }
}

/// The largest plaintext of the mock RSA decryption for a key algorithm
/// (the key size less the 11 bytes of PKCS#1 padding).
pub open spec fn rsa_plain_size(a: KeyAlgorithm) -> nat {
    match a {
        KeyAlgorithm::Rsa2048 => 245,
        KeyAlgorithm::Rsa3072 => 373,
        KeyAlgorithm::Rsa4096 => 501,
        _ => 245,
    }
}

/// Whether a mechanism is one of the RSA PKCS#1 ones.
pub open spec fn is_rsa_pkcs(m: Mechanism) -> bool {
    m is RsaPkcs1 || m is RsaPkcs1Pss
}

/// Append `data` to `buffer`.
pub fn append_bytes(buffer: &mut Vec<u8>, data: &[u8])
    ensures
        final(buffer)@ == old(buffer)@ + data@,
{
    let mut i: usize = 0;
    let ghost start = buffer@;
    while i < data.len()
        invariant
            0 <= i <= data@.len(),
            buffer@ == start + data@.subrange(0, i as int),
        decreases data@.len() - i,
    {
        buffer.push(data[i]);
        proof {
            assert(start + data@.subrange(0, i + 1) =~= (start + data@.subrange(0, i as int)).push(data@[i as int]));
        }
        i = i + 1;
    }
    proof {
        assert(data@.subrange(0, data@.len() as int) =~= data@);
    }
}

/// A mock encrypt context: it collects the plaintext and encrypts it at the
/// end.
#[derive(Debug)]
pub struct MockEncryptContext {
    pub mechanism: Mechanism,
    pub key: MockKey,
    pub context: MockContext,
    pub data_buffer: Vec<u8>,
}

impl MockEncryptContext {
    /// An encrypt context; the key must be allowed to encrypt.
    pub fn new(mechanism: Mechanism, key: MockKey, config: &MockConfig) -> (r: BackendResult<Self>)
        ensures
            !key.spec_usage().encrypt ==> (r matches Err(BackendError::InvalidKey(m)) && m@
                == "Key cannot be used for encryption"@),
            key.spec_usage().encrypt ==> (r matches Ok(c) && c.mechanism == mechanism && c.key == key
                && c.context.config@ == config@ && c.context.operation_count == 0 && c.data_buffer@.len() == 0),
    {
        if !key.can_encrypt() {
            return Err(BackendError::InvalidKey(String::from_str("Key cannot be used for encryption")));
        }
        Ok(MockEncryptContext { mechanism, key, context: MockContext::new(config), data_buffer: Vec::new() })
    }
    /// The mock encryption of `data`.
    pub fn encrypt_mock_data(&self, data: &[u8]) -> (r: Vec<u8>)
        requires
            mock_cipher_ok(self.context.config.deterministic, self.key.spec_key_data(), data@),
        ensures
            r@ == mock_encrypted(self.context.config.deterministic, self.key.spec_key_data(), data@),
    {
        if self.context.config.deterministic {
            xor_with_key(data, self.key.key_data())
        } else {
            crate::mock::key::bump_bytes(data)
        }
    }
    /// The ciphertext size for `input_size` bytes of plaintext.
    pub fn calculate_output_size(&self, input_size: usize) -> (r: usize)
        ensures
            r == (if is_rsa_pkcs(self.mechanism) {
                rsa_cipher_size(self.key.spec_algorithm())
            } else {
                input_size as nat
            }),
    {
        match self.mechanism {
            Mechanism::RsaPkcs1 { .. } | Mechanism::RsaPkcs1Pss { .. } => match self.key.algorithm() {
                KeyAlgorithm::Rsa2048 => 256,
                KeyAlgorithm::Rsa3072 => 384,
                KeyAlgorithm::Rsa4096 => 512,
                _ => 256,
            },
            _ => input_size,
        }
    }
}

impl EncryptContext for MockEncryptContext {
    closed spec fn spec_mechanism(&self) -> Mechanism {
        self.mechanism
    }

    /// The injected error, if any; otherwise `data` is collected and nothing
    /// is output.
    open spec fn spec_update(&self, data: Seq<u8>, r: Result<Seq<u8>, BackendError>, next: Self) -> bool {
        &&& injected_error(self.context.config@, "encrypt_update"@, match r {
            Err(e) => Some(e),
            Ok(_) => None,
        })
        &&& r matches Ok(v) ==> v.len() == 0 && next.data_buffer@ == self.data_buffer@ + data
        &&& r is Err ==> next.data_buffer@ == self.data_buffer@
        &&& next.mechanism == self.mechanism
        &&& next.key == self.key
        &&& next.context == self.context
    }

    /// The injected error, if any; otherwise the mock encryption of what was
    /// collected.
    open spec fn spec_finalize(&self, r: Result<Seq<u8>, BackendError>) -> bool {
        &&& injected_error(self.context.config@, "encrypt_finalize"@, match r {
            Err(e) => Some(e),
            Ok(_) => None,
        })
        &&& r matches Ok(v) ==> v == mock_encrypted(self.context.config.deterministic, self.key.spec_key_data(), self.data_buffer@)
    }

    open spec fn spec_finalize_ok(&self) -> bool {
        mock_cipher_ok(self.context.config.deterministic, self.key.spec_key_data(), self.data_buffer@)
    }

    open spec fn spec_update_then_finalize_ok(&self, data: Seq<u8>) -> bool {
        mock_cipher_ok(self.context.config.deterministic, self.key.spec_key_data(), self.data_buffer@ + data)
    }

    closed spec fn spec_key_size(&self) -> usize {
        key_bits(self.key.spec_algorithm()) as usize
    }

    /// The mechanism.
    fn mechanism(&self) -> (r: &Mechanism)
        ensures
            *r == self.mechanism,
    {
        &self.mechanism
    }
    /// Always in the multi-part state.
    fn state(&self) -> (r: ContextState)
        ensures
            r == ContextState::MultiPartActive,
    {
        ContextState::MultiPartActive
    }
    /// Collect `data`; nothing is output until the end.
    fn update(&mut self, data: &[u8]) -> (r: BackendResult<Vec<u8>>)
        ensures
            injected_error(old(self).context.config@, "encrypt_update"@, match r {
                Err(e) => Some(e),
                Ok(_) => None,
            }),
            r matches Ok(v) ==> v@.len() == 0 && final(self).data_buffer@ == old(self).data_buffer@ + data@,
            r is Err ==> final(self).data_buffer@ == old(self).data_buffer@,
            final(self).mechanism == old(self).mechanism,
            final(self).key == old(self).key,
            final(self).context == old(self).context,
    {
        match self.context.should_inject_error("encrypt_update") {
            Some(e) => return Err(e),
            None => {},
        }
        append_bytes(&mut self.data_buffer, data);
        proof {
            assert(self.spec_finalize_ok() == mock_cipher_ok(
                self.context.config.deterministic,
                self.key.spec_key_data(),
                self.data_buffer@,
            ));
            assert(old(self).spec_update_then_finalize_ok(data@) == mock_cipher_ok(
                old(self).context.config.deterministic,
                old(self).key.spec_key_data(),
                old(self).data_buffer@ + data@,
            ));
        }
        Ok(Vec::new())
    }
    /// The encryption of everything collected.
    fn finalize(self) -> (r: BackendResult<Vec<u8>>)
        ensures
            injected_error(self.context.config@, "encrypt_finalize"@, match r {
                Err(e) => Some(e),
                Ok(_) => None,
            }),
            r matches Ok(v) ==> v@ == mock_encrypted(
                self.context.config.deterministic,
                self.key.spec_key_data(),
                self.data_buffer@,
            ),
    {
        match self.context.should_inject_error("encrypt_finalize") {
            Some(e) => return Err(e),
            None => {},
        }
        proof {
            assert(self.spec_finalize_ok());
        }
        Ok(self.encrypt_mock_data(self.data_buffer.as_slice()))
    }
    /// The key's algorithm.
    fn key_algorithm(&self) -> (r: KeyAlgorithm)
        ensures
            r == self.key.spec_algorithm(),
    {
        self.key.algorithm()
    }
    /// The key's size in bits.
    fn key_size(&self) -> (r: usize)
        ensures
            r == key_bits(self.key.spec_algorithm()),
    {
        self.key.key_size()
    }
    /// The ciphertext size for `input_size` bytes of plaintext.
    fn output_size(&self, input_size: usize) -> (r: usize)
        ensures
            r == (if is_rsa_pkcs(self.mechanism) {
                rsa_cipher_size(self.key.spec_algorithm())
            } else {
                input_size as nat
            }),
    {
        self.calculate_output_size(input_size)
    }
    /// Discard what was collected.
    fn reset(&mut self) -> (r: BackendResult<()>)
        ensures
            injected_error(old(self).context.config@, "encrypt_reset"@, match r {
                Err(e) => Some(e),
                Ok(_) => None,
            }),
            r is Ok ==> final(self).data_buffer@.len() == 0,
            r is Err ==> final(self).data_buffer@ == old(self).data_buffer@,
            final(self).mechanism == old(self).mechanism,
            final(self).key == old(self).key,
            final(self).context == old(self).context,
    {
        match self.context.should_inject_error("encrypt_reset") {
            Some(e) => return Err(e),
            None => {},
        }
        self.data_buffer.clear();
        Ok(())
    }
    /// Reset is supported.
    fn supports_reset(&self) -> (r: bool)
        ensures
            r,
    {
        true
    }
}

/// A mock decrypt context: it collects the ciphertext and decrypts it at the
/// end.
#[derive(Debug)]
pub struct MockDecryptContext {
    pub mechanism: Mechanism,
    pub key: MockKey,
    pub context: MockContext,
    pub data_buffer: Vec<u8>,
}

impl MockDecryptContext {
    /// A decrypt context; the key must be allowed to decrypt.
    pub fn new(mechanism: Mechanism, key: MockKey, config: &MockConfig) -> (r: BackendResult<Self>)
        ensures
            !key.spec_usage().decrypt ==> (r matches Err(BackendError::InvalidKey(m)) && m@
                == "Key cannot be used for decryption"@),
            key.spec_usage().decrypt ==> (r matches Ok(c) && c.mechanism == mechanism && c.key == key
                && c.context.config@ == config@ && c.context.operation_count == 0 && c.data_buffer@.len() == 0),
    {
        if !key.can_decrypt() {
            return Err(BackendError::InvalidKey(String::from_str("Key cannot be used for decryption")));
        }
        Ok(MockDecryptContext { mechanism, key, context: MockContext::new(config), data_buffer: Vec::new() })
    }
    /// The mock decryption of `data`.
    pub fn decrypt_mock_data(&self, data: &[u8]) -> (r: Vec<u8>)
        requires
            mock_cipher_ok(self.context.config.deterministic, self.key.spec_key_data(), data@),
        ensures
            r@ == mock_decrypted(self.context.config.deterministic, self.key.spec_key_data(), data@),
    {
        if self.context.config.deterministic {
            xor_with_key(data, self.key.key_data())
        } else {
            lower_bytes(data)
        }
    }
    /// The plaintext size bound for `input_size` bytes of ciphertext.
    pub fn calculate_output_size(&self, input_size: usize) -> (r: usize)
        ensures
            r == (if is_rsa_pkcs(self.mechanism) {
                rsa_plain_size(self.key.spec_algorithm())
            } else {
                input_size as nat
            }),
    {
        match self.mechanism {
            Mechanism::RsaPkcs1 { .. } | Mechanism::RsaPkcs1Pss { .. } => match self.key.algorithm() {
                KeyAlgorithm::Rsa2048 => 245,
                KeyAlgorithm::Rsa3072 => 373,
                KeyAlgorithm::Rsa4096 => 501,
                _ => 245,
            },
            _ => input_size,
        }
    }
}

impl DecryptContext for MockDecryptContext {
    closed spec fn spec_mechanism(&self) -> Mechanism {
        self.mechanism
    }

    /// The injected error, if any; otherwise `ciphertext` is collected and nothing
    /// is output.
    open spec fn spec_update(&self, ciphertext: Seq<u8>, r: Result<Seq<u8>, BackendError>, next: Self) -> bool {
        &&& injected_error(self.context.config@, "decrypt_update"@, match r {
            Err(e) => Some(e),
            Ok(_) => None,
        })
        &&& r matches Ok(v) ==> v.len() == 0 && next.data_buffer@ == self.data_buffer@ + ciphertext
        &&& r is Err ==> next.data_buffer@ == self.data_buffer@
        &&& next.mechanism == self.mechanism
        &&& next.key == self.key
        &&& next.context == self.context
    }

    /// The injected error, if any; otherwise the mock decryption of what was
    /// collected.
    open spec fn spec_finalize(&self, r: Result<Seq<u8>, BackendError>) -> bool {
        &&& injected_error(self.context.config@, "decrypt_finalize"@, match r {
            Err(e) => Some(e),
            Ok(_) => None,
        })
        &&& r matches Ok(v) ==> v == mock_decrypted(self.context.config.deterministic, self.key.spec_key_data(), self.data_buffer@)
    }

    open spec fn spec_finalize_ok(&self) -> bool {
        mock_cipher_ok(self.context.config.deterministic, self.key.spec_key_data(), self.data_buffer@)
    }

    open spec fn spec_update_then_finalize_ok(&self, data: Seq<u8>) -> bool {
        mock_cipher_ok(self.context.config.deterministic, self.key.spec_key_data(), self.data_buffer@ + data)
    }

    closed spec fn spec_key_size(&self) -> usize {
        key_bits(self.key.spec_algorithm()) as usize
    }

    /// The mechanism.
    fn mechanism(&self) -> (r: &Mechanism)
        ensures
            *r == self.mechanism,
    {
        &self.mechanism
    }
    /// Always in the multi-part state.
    fn state(&self) -> (r: ContextState)
        ensures
            r == ContextState::MultiPartActive,
    {
        ContextState::MultiPartActive
    }
    /// Collect `ciphertext`; nothing is output until the end.
    fn update(&mut self, ciphertext: &[u8]) -> (r: BackendResult<Vec<u8>>)
        ensures
            injected_error(old(self).context.config@, "decrypt_update"@, match r {
                Err(e) => Some(e),
                Ok(_) => None,
            }),
            r matches Ok(v) ==> v@.len() == 0 && final(self).data_buffer@ == old(self).data_buffer@ + ciphertext@,
            r is Err ==> final(self).data_buffer@ == old(self).data_buffer@,
            final(self).mechanism == old(self).mechanism,
            final(self).key == old(self).key,
            final(self).context == old(self).context,
    {
        match self.context.should_inject_error("decrypt_update") {
            Some(e) => return Err(e),
            None => {},
        }
        append_bytes(&mut self.data_buffer, ciphertext);
        proof {
            assert(self.spec_finalize_ok() == mock_cipher_ok(
                self.context.config.deterministic,
                self.key.spec_key_data(),
                self.data_buffer@,
            ));
            assert(old(self).spec_update_then_finalize_ok(ciphertext@) == mock_cipher_ok(
                old(self).context.config.deterministic,
                old(self).key.spec_key_data(),
                old(self).data_buffer@ + ciphertext@,
            ));
        }
        Ok(Vec::new())
    }
    /// The decryption of everything collected.
    fn finalize(self) -> (r: BackendResult<Vec<u8>>)
        ensures
            injected_error(self.context.config@, "decrypt_finalize"@, match r {
                Err(e) => Some(e),
                Ok(_) => None,
            }),
            r matches Ok(v) ==> v@ == mock_decrypted(
                self.context.config.deterministic,
                self.key.spec_key_data(),
                self.data_buffer@,
            ),
    {
        match self.context.should_inject_error("decrypt_finalize") {
            Some(e) => return Err(e),
            None => {},
        }
        proof {
            assert(self.spec_finalize_ok());
        }
        Ok(self.decrypt_mock_data(self.data_buffer.as_slice()))
    }
    /// The key's algorithm.
    fn key_algorithm(&self) -> (r: KeyAlgorithm)
        ensures
            r == self.key.spec_algorithm(),
    {
        self.key.algorithm()
    }
    /// The key's size in bits.
    fn key_size(&self) -> (r: usize)
        ensures
            r == key_bits(self.key.spec_algorithm()),
    {
        self.key.key_size()
    }
    /// The plaintext size bound for `ciphertext_size` bytes.
    fn output_size(&self, ciphertext_size: usize) -> (r: usize)
        ensures
            r == (if is_rsa_pkcs(self.mechanism) {
                rsa_plain_size(self.key.spec_algorithm())
            } else {
                ciphertext_size as nat
            }),
    {
        self.calculate_output_size(ciphertext_size)
    }
    /// Discard what was collected.
    fn reset(&mut self) -> (r: BackendResult<()>)
        ensures
            injected_error(old(self).context.config@, "decrypt_reset"@, match r {
                Err(e) => Some(e),
                Ok(_) => None,
            }),
            r is Ok ==> final(self).data_buffer@.len() == 0,
            r is Err ==> final(self).data_buffer@ == old(self).data_buffer@,
            final(self).mechanism == old(self).mechanism,
            final(self).key == old(self).key,
            final(self).context == old(self).context,
    {
        match self.context.should_inject_error("decrypt_reset") {
            Some(e) => return Err(e),
            None => {},
        }
        self.data_buffer.clear();
        Ok(())
    }
    /// Reset is supported.
    fn supports_reset(&self) -> (r: bool)
        ensures
            r,
    {
        true
    }
}

/// Decryption undoes encryption: in deterministic mode when both contexts
/// use the same key material (XOR twice with the same key), otherwise always
/// (increment, then decrement).
pub proof fn lemma_mock_decrypt_encrypt(deterministic: bool, key: Seq<u8>, data: Seq<u8>)
    requires
        mock_cipher_ok(deterministic, key, data),
    ensures
        mock_decrypted(deterministic, key, mock_encrypted(deterministic, key, data)) == data,
{
    let e = mock_encrypted(deterministic, key, data);
    let d = mock_decrypted(deterministic, key, e);
    assert forall|i: int| 0 <= i < data.len() implies d[i] == data[i] by {
        if deterministic {
            let k = key[i % key.len() as int];
            let b = data[i];
            assert((b ^ k) ^ k == b) by (bit_vector);
        } else {
            assert(e[i] == ((data[i] + 1) % 256) as u8);
        }
    }
    assert(d =~= data);
}

/// In deterministic mode, a signature made over some data is accepted over
/// data of the same length by a verify context whose mechanism and key
/// algorithm agree and whose key material has the signer's length.
pub proof fn lemma_mock_sign_then_verify(m: Mechanism, a: KeyAlgorithm, key_len: nat, data_len: nat)
    ensures
        mock_accepts(true, m, a, key_len, data_len, mock_signature(data_len, key_len, mock_sig_size(m, a))),
{
}

/// The fixed output of a deterministic mock digest.
pub open spec fn fixed_digest(a: DigestAlgorithm) -> Seq<u8> {
    match a {
        DigestAlgorithm::Sha256 => Seq::new(32, |i: int| 0x42u8),
        DigestAlgorithm::Sha384 => Seq::new(48, |i: int| 0x43u8),
        _ => Seq::new(64, |i: int| 0x44u8),
    }
}

/// The digests the mock supports.
pub open spec fn mock_digest_supported(a: DigestAlgorithm) -> bool {
    a == DigestAlgorithm::Sha256 || a == DigestAlgorithm::Sha384 || a == DigestAlgorithm::Sha512
}

/// The mock digest of `data`: a fixed value in deterministic mode, the
/// `sha2` digest otherwise.
pub open spec fn mock_digest(deterministic: bool, a: DigestAlgorithm, data: Seq<u8>) -> Seq<u8> {
    if deterministic {
        fixed_digest(a)
    } else {
        match a {
            DigestAlgorithm::Sha256 => sha2_sha256(data),
            DigestAlgorithm::Sha384 => sha2_sha384(data),
            _ => sha2_sha512(data),
        }
    }
}

/// Output size in bytes of the mock's digests.
pub open spec fn mock_digest_size(a: DigestAlgorithm) -> nat {
    match a {
        DigestAlgorithm::Sha256 => 32,
        DigestAlgorithm::Sha384 => 48,
        _ => 64,
    }
}

/// The message for a digest algorithm the mock does not offer.
pub open spec fn unsupported_digest_msg(a: DigestAlgorithm) -> Seq<char> {
    "Digest algorithm "@ + digest_debug(a) + " not supported in mock"@
}

/// A mock digest context. The data absorbed so far stands for the hasher's
/// state; the digest is computed from it at the end.
#[derive(Debug)]
pub struct MockDigestContext {
    pub algorithm: DigestAlgorithm,
    pub context: MockContext,
    pub absorbed: Vec<u8>,
}

/// The error for a digest the mock does not offer.
fn unsupported_digest(algorithm: DigestAlgorithm) -> (r: BackendError)
    ensures
        r matches BackendError::UnsupportedAlgorithm(m) && m@ == unsupported_digest_msg(algorithm),
{
    let msg = String::from_str("Digest algorithm ").concat(algorithm.debug_name()).concat(" not supported in mock");
    BackendError::UnsupportedAlgorithm(msg)
}

impl MockDigestContext {
    /// A digest context for SHA-256, SHA-384 or SHA-512; other algorithms are
    /// refused.
    pub fn new(algorithm: DigestAlgorithm, config: &MockConfig) -> (r: BackendResult<Self>)
        ensures
            mock_digest_supported(algorithm) ==> (r matches Ok(c) && c.algorithm == algorithm && c.context.config@
                == config@ && c.context.operation_count == 0 && c.absorbed@.len() == 0),
            !mock_digest_supported(algorithm) ==> (r matches Err(BackendError::UnsupportedAlgorithm(m)) && m@
                == unsupported_digest_msg(algorithm)),
    {
        match algorithm {
            DigestAlgorithm::Sha256 | DigestAlgorithm::Sha384 | DigestAlgorithm::Sha512 => {
                Ok(MockDigestContext { algorithm, context: MockContext::new(config), absorbed: Vec::new() })
            },
            _ => Err(unsupported_digest(algorithm)),
        }
    }
}

impl DigestContext for MockDigestContext {
    closed spec fn spec_algorithm(&self) -> DigestAlgorithm {
        self.algorithm
    }

    /// The injected error, if any; otherwise `data` is absorbed.
    open spec fn spec_update(&self, data: Seq<u8>, r: BackendResult<()>, next: Self) -> bool {
        &&& injected_error(self.context.config@, "digest_update"@, match r {
            Err(e) => Some(e),
            Ok(_) => None,
        })
        &&& r is Ok ==> next.absorbed@ == self.absorbed@ + data
        &&& r is Err ==> next.absorbed@ == self.absorbed@
        &&& next.algorithm == self.algorithm
        &&& next.context == self.context
    }

    /// The injected error, if any; otherwise the mock digest of what was
    /// absorbed.
    open spec fn spec_finalize(&self, r: Result<Seq<u8>, BackendError>) -> bool {
        &&& injected_error(self.context.config@, "digest_finalize"@, match r {
            Err(e) => Some(e),
            Ok(_) => None,
        })
        &&& r matches Ok(v) ==> v == mock_digest(self.context.config.deterministic, self.algorithm, self.absorbed@)
            && v.len() == mock_digest_size(self.algorithm)
    }

    /// The algorithm.
    fn algorithm(&self) -> (r: DigestAlgorithm)
        ensures
            r == self.algorithm,
    {
        self.algorithm
    }
    /// Always in the multi-part state.
    fn state(&self) -> (r: ContextState)
        ensures
            r == ContextState::MultiPartActive,
    {
        ContextState::MultiPartActive
    }
    /// Absorb `data`.
    fn update(&mut self, data: &[u8]) -> (r: BackendResult<()>)
        ensures
            injected_error(old(self).context.config@, "digest_update"@, match r {
                Err(e) => Some(e),
                Ok(_) => None,
            }),
            r is Ok ==> final(self).absorbed@ == old(self).absorbed@ + data@,
            r is Err ==> final(self).absorbed@ == old(self).absorbed@,
            final(self).algorithm == old(self).algorithm,
            final(self).context == old(self).context,
    {
        match self.context.should_inject_error("digest_update") {
            Some(e) => return Err(e),
            None => {},
        }
        append_bytes(&mut self.absorbed, data);
        Ok(())
    }
    /// The digest of everything absorbed.
    fn finalize(self) -> (r: BackendResult<Vec<u8>>)
        ensures
            injected_error(self.context.config@, "digest_finalize"@, match r {
                Err(e) => Some(e),
                Ok(_) => None,
            }),
            r matches Ok(v) ==> v@ == mock_digest(self.context.config.deterministic, self.algorithm, self.absorbed@)
                && v@.len() == mock_digest_size(self.algorithm),
    {
        match self.context.should_inject_error("digest_finalize") {
            Some(e) => return Err(e),
            None => {},
        }
        if self.context.config.deterministic {
            let r = match self.algorithm {
                DigestAlgorithm::Sha256 => vec![0x42u8; 32],
                DigestAlgorithm::Sha384 => vec![0x43u8; 48],
                _ => vec![0x44u8; 64],
            };
            proof {
                assert(r@ =~= fixed_digest(self.algorithm));
            }
            Ok(r)
        } else {
            let r = match self.algorithm {
                DigestAlgorithm::Sha256 => sha256(self.absorbed.as_slice()),
                DigestAlgorithm::Sha384 => sha384(self.absorbed.as_slice()),
                _ => sha512(self.absorbed.as_slice()),
            };
            Ok(r)
        }
    }
    /// The digest size in bytes.
    fn output_size(&self) -> (r: usize)
        ensures
            r == mock_digest_size(self.algorithm),
    {
        match self.algorithm {
            DigestAlgorithm::Sha256 => 32,
            DigestAlgorithm::Sha384 => 48,
            _ => 64,
        }
    }
    /// Start over with nothing absorbed.
    fn reset(&mut self) -> (r: BackendResult<()>)
        ensures
            injected_error(old(self).context.config@, "digest_reset"@, match r {
                Err(e) => Some(e),
                Ok(_) => None,
            }) || (!mock_digest_supported(old(self).algorithm) && r matches Err(
                BackendError::UnsupportedAlgorithm(_),
            )),
            r is Ok ==> final(self).absorbed@.len() == 0,
            r is Err ==> final(self).absorbed@ == old(self).absorbed@,
            final(self).algorithm == old(self).algorithm,
            final(self).context == old(self).context,
    {
        match self.context.should_inject_error("digest_reset") {
            Some(e) => return Err(e),
            None => {},
        }
        match self.algorithm {
            DigestAlgorithm::Sha256 | DigestAlgorithm::Sha384 | DigestAlgorithm::Sha512 => {
                self.absorbed = Vec::new();
                Ok(())
            },
            _ => Err(unsupported_digest(self.algorithm)),
        }
    }
    /// Reset is supported.
    fn supports_reset(&self) -> (r: bool)
        ensures
            r,
    {
        true
    }
}

impl Clone for MockDigestContext {
    /// A context in the same state.
    fn clone(&self) -> (r: Self)
        ensures
            r.algorithm == self.algorithm,
            r.context.config@ == self.context.config@,
            r.context.operation_count == self.context.operation_count,
            r.absorbed@ == self.absorbed@,
    {
        MockDigestContext {
            algorithm: self.algorithm,
            context: MockContext { config: self.context.config.clone(), operation_count: self.context.operation_count },
            absorbed: vstd::slice::slice_to_vec(self.absorbed.as_slice()),
        }
    }
}

/// Feeding data in two updates gives the digest of feeding it at once: the
/// digest depends on the concatenation only.
pub proof fn lemma_mock_digest_streaming(deterministic: bool, a: DigestAlgorithm, x: Seq<u8>, y: Seq<u8>)
    ensures
        mock_digest(deterministic, a, (Seq::<u8>::empty() + x) + y) == mock_digest(deterministic, a, x + y),
{
    assert((Seq::<u8>::empty() + x) + y =~= x + y);
}

/// A mock signature is as long as a real one of its kind: an RSA
/// signature as long as the modulus, an ECDSA one as two coordinates of
/// the curve's size, for every key algorithm the mock signs with.
pub proof fn lemma_mock_signature_size(m: Mechanism, a: KeyAlgorithm)
    ensures
        (m is RsaPkcs1 || m is RsaPkcs1Pss) && alg_is_rsa(a) && 2048 <= key_bits(a) <= 4096 ==> mock_sig_size(m, a)
            == key_bits(a) / 8,
        m is Ecdsa && (a is EcdsaP256 || a is EcdsaP384) ==> mock_sig_size(m, a) == 2 * (key_bits(a) / 8),
{
}

} // verus!
