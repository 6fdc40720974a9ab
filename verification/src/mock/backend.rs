//! The mock backend: key generation and import, contexts, random data.
//! Simulated delays are waited out by the caller; here are the decisions and
//! results.

use vstd::prelude::*;
use crate::info::{BackendCapabilities, BackendInfo};
use crate::mock::config::{DEFAULT_SEED, MockConfig, config_delay, seeded_bytes, seeded_or_random};
use crate::mock::context::{
    MockDecryptContext, MockDigestContext, MockEncryptContext, MockSignContext, MockVerifyContext,
    injected_error, injected_error_for, mock_digest_supported,
};
use crate::mock::key::{
    MockCertificate, MockKey, MockKeyPair, bumped, ecdsa_private_usage, ecdsa_public_usage,
    imported_private_usage, imported_public_usage, rsa_private_usage, rsa_public_usage, same_key,
    symmetric_usage,
};
use crate::rng::random_bytes;
use crate::traits::key::{Key, KeyPair};
use crate::types::context::{ContextConfig, MechanismParams};
use crate::types::error::{BackendError, BackendResult};
use crate::types::key::{KeyAlgorithm, KeyType, alg_debug, key_bits, key_type_name};
use crate::types::mechanism::{DigestAlgorithm, Mechanism};

verus! {

/// The mechanisms the mock supports: digests, RSA PKCS#1 and PSS, ECDSA.
pub open spec fn mock_supports(m: Mechanism) -> bool {
    m is Digest || m is RsaPkcs1 || m is RsaPkcs1Pss || m is Ecdsa
}

/// The message for a key pair algorithm the mock does not generate.
pub open spec fn keypair_unsupported_msg(a: KeyAlgorithm) -> Seq<char> {
    "Key generation for "@ + alg_debug(a) + " not supported"@
}

/// The message for a symmetric algorithm the mock does not generate.
pub open spec fn key_unsupported_msg(a: KeyAlgorithm) -> Seq<char> {
    "Symmetric key generation for "@ + alg_debug(a) + " not supported"@
}

/// `generate_random`'s deterministic output: byte `i` is `i mod 256`.
pub open spec fn counting_bytes(len: nat) -> Seq<u8> {
    Seq::new(len, |i: int| (i % 256) as u8)
}

/// The result of an operation that may have an injected error, as an option.
pub open spec fn err_of<T>(r: BackendResult<T>) -> Option<BackendError> {
    match r {
        Err(e) => Some(e),
        Ok(_) => None,
    }
}

/// The mock cryptographic backend.
#[derive(Debug)]
pub struct MockBackend {
    pub info: BackendInfo,
    pub config: MockConfig,
}

/// The information of the mock backend.
fn mock_info() -> (r: BackendInfo)
    ensures
        r.name@ == "Mock Backend"@,
        r.version@ == "1.0.0"@,
        r.description@ == "Mock cryptographic backend implementation for testing"@,
        r.capabilities == (BackendCapabilities {
            hardware_keys: false,
            secure_storage: false,
            hardware_rng: false,
            side_channel_resistant: false,
        }),
{
    BackendInfo::new(
        "Mock Backend",
        "1.0.0",
        "Mock cryptographic backend implementation for testing",
        BackendCapabilities {
            hardware_keys: false,
            secure_storage: false,
            hardware_rng: false,
            side_channel_resistant: false,
        },
    )
}

/// The key material of a key pair generated in deterministic mode: the
/// seeded bytes, one key size long for RSA keys and for an ECDSA private key,
/// twice that for an ECDSA public key.
pub open spec fn deterministic_keypair_data(algorithm: KeyAlgorithm) -> (Seq<u8>, Seq<u8>) {
    let n = key_bits(algorithm) / 8;
    if crate::mock::key::mock_ecdsa_alg(algorithm) {
        (seeded_bytes(DEFAULT_SEED as int, n), seeded_bytes(DEFAULT_SEED as int, n * 2))
    } else {
        (seeded_bytes(DEFAULT_SEED as int, n), seeded_bytes(DEFAULT_SEED as int, n))
    }
}

impl MockBackend {
    /// A mock backend with the default configuration.
    pub fn new() -> (r: BackendResult<Self>)
        ensures
            r matches Ok(b) && b.info.name@ == "Mock Backend"@ && b.info.version@ == "1.0.0"@ && b.config@
                == MockConfig::spec_default_view(),
    {
        let config = MockConfig::default();
        Ok(MockBackend { info: mock_info(), config })
    }

    /// A mock backend with the given configuration.
    pub fn with_config(config: MockConfig) -> (r: BackendResult<Self>)
        ensures
            r matches Ok(b) && b.info.name@ == "Mock Backend"@ && b.info.version@ == "1.0.0"@ && b.config@
                == config@,
    {
        Ok(MockBackend { info: mock_info(), config })
    }

    /// The configuration.
    pub fn config(&self) -> (r: &MockConfig)
        ensures
            r@ == self.config@,
    {
        &self.config
    }

    /// Replace the configuration.
    pub fn update_config(&mut self, config: MockConfig)
        ensures
            final(self).config@ == config@,
            final(self).info == old(self).info,
    {
        self.config = config;
    }

    /// The error injected into operation `op`, if any.
    pub fn should_inject_error(&self, operation: &str) -> (r: Option<BackendError>)
        ensures
            injected_error(self.config@, operation@, r),
    {
        injected_error_for(&self.config, operation)
    }

    /// The simulated delay of operation `op`, in milliseconds.
    pub fn operation_delay(&self, operation: &str) -> (r: Option<u64>)
        ensures
            r == config_delay(self.config@, operation@),
    {
        self.config.operation_delay(operation)
    }

    /// The backend's information.
    pub fn info(&self) -> (r: &BackendInfo)
        ensures
            *r == self.info,
    {
        &self.info
    }

    /// Whether the mock supports `mechanism`.
    pub fn supports_mechanism(&self, mechanism: &Mechanism) -> (r: bool)
        ensures
            r == mock_supports(*mechanism),
    {
        match mechanism {
            Mechanism::Digest(_) => true,
            Mechanism::RsaPkcs1 { .. } => true,
            Mechanism::RsaPkcs1Pss { .. } => true,
            Mechanism::Ecdsa { .. } => true,
            _ => false,
        }
    }

    /// The mechanisms the mock lists.
    pub fn supported_mechanisms(&self) -> (r: Vec<Mechanism>)
        ensures
            r@ == seq![
                Mechanism::Digest(DigestAlgorithm::Sha256),
                Mechanism::Digest(DigestAlgorithm::Sha384),
                Mechanism::Digest(DigestAlgorithm::Sha512),
                Mechanism::RsaPkcs1 { digest: Some(DigestAlgorithm::Sha256) },
                Mechanism::RsaPkcs1 { digest: Some(DigestAlgorithm::Sha384) },
                Mechanism::RsaPkcs1 { digest: Some(DigestAlgorithm::Sha512) },
                Mechanism::RsaPkcs1Pss { digest: DigestAlgorithm::Sha256, mgf: DigestAlgorithm::Sha256, salt_len: 32 },
                Mechanism::Ecdsa { digest: Some(DigestAlgorithm::Sha256) },
                Mechanism::Ecdsa { digest: Some(DigestAlgorithm::Sha384) },
            ],
            forall|i: int| 0 <= i < r@.len() ==> mock_supports(#[trigger] r@[i]),
    {
        let mut v: Vec<Mechanism> = Vec::new();
        v.push(Mechanism::Digest(DigestAlgorithm::Sha256));
        v.push(Mechanism::Digest(DigestAlgorithm::Sha384));
        v.push(Mechanism::Digest(DigestAlgorithm::Sha512));
        v.push(Mechanism::RsaPkcs1 { digest: Some(DigestAlgorithm::Sha256) });
        v.push(Mechanism::RsaPkcs1 { digest: Some(DigestAlgorithm::Sha384) });
        v.push(Mechanism::RsaPkcs1 { digest: Some(DigestAlgorithm::Sha512) });
        v.push(
            Mechanism::RsaPkcs1Pss { digest: DigestAlgorithm::Sha256, mgf: DigestAlgorithm::Sha256, salt_len: 32 },
        );
        v.push(Mechanism::Ecdsa { digest: Some(DigestAlgorithm::Sha256) });
        v.push(Mechanism::Ecdsa { digest: Some(DigestAlgorithm::Sha384) });
        v
    }

    /// The key algorithms the mock lists.
    pub fn supported_key_algorithms(&self) -> (r: Vec<KeyAlgorithm>)
        ensures
            r@ == seq![
                KeyAlgorithm::Rsa2048,
                KeyAlgorithm::Rsa3072,
                KeyAlgorithm::Rsa4096,
                KeyAlgorithm::EcdsaP256,
                KeyAlgorithm::EcdsaP384,
                KeyAlgorithm::Aes256,
            ],
            forall|i: int|
                0 <= i < r@.len() ==> crate::mock::key::mock_rsa_alg(#[trigger] r@[i]) || crate::mock::key::mock_ecdsa_alg(
                    r@[i],
                ) || r@[i] == KeyAlgorithm::Aes256,
    {
        let mut v: Vec<KeyAlgorithm> = Vec::new();
        v.push(KeyAlgorithm::Rsa2048);
        v.push(KeyAlgorithm::Rsa3072);
        v.push(KeyAlgorithm::Rsa4096);
        v.push(KeyAlgorithm::EcdsaP256);
        v.push(KeyAlgorithm::EcdsaP384);
        v.push(KeyAlgorithm::Aes256);
        v
    }

    /// Generate a key pair: RSA-2048/3072/4096 and ECDSA P-256/P-384.
    pub fn generate_keypair(&self, algorithm: KeyAlgorithm, config: Option<ContextConfig>) -> (r: BackendResult<
        MockKeyPair,
    >)
        ensures
            crate::mock::config::config_injects(self.config@, "generate_keypair"@) ==> injected_error(
                self.config@,
                "generate_keypair"@,
                err_of(r),
            ),
            !crate::mock::config::config_injects(self.config@, "generate_keypair"@) && !(
            crate::mock::key::mock_rsa_alg(algorithm) || crate::mock::key::mock_ecdsa_alg(algorithm)) ==> (r matches Err(
                BackendError::UnsupportedAlgorithm(m),
            ) && m@ == keypair_unsupported_msg(algorithm)),
            r matches Ok(kp) ==> kp.spec_private().spec_algorithm() == algorithm && kp.spec_public().spec_algorithm()
                == algorithm && kp.spec_private().spec_key_type() == KeyType::Private
                && kp.spec_public().spec_key_type() == KeyType::Public && (crate::mock::key::mock_rsa_alg(
                algorithm,
            ) ==> kp.spec_private().spec_usage() == rsa_private_usage() && kp.spec_public().spec_usage()
                == rsa_public_usage() && kp.spec_private().spec_key_data().len() == key_bits(algorithm) / 8
                && kp.spec_public().spec_key_data().len() == key_bits(algorithm) / 8) && (
            crate::mock::key::mock_ecdsa_alg(algorithm) ==> kp.spec_private().spec_usage() == ecdsa_private_usage()
                && kp.spec_public().spec_usage() == ecdsa_public_usage()),
            !crate::mock::config::config_injects(self.config@, "generate_keypair"@) && (
            crate::mock::key::mock_rsa_alg(algorithm) || crate::mock::key::mock_ecdsa_alg(algorithm)) ==> r is Ok,
            self.config.deterministic ==> (r matches Ok(kp) ==> kp.spec_private().spec_key_data()
                == deterministic_keypair_data(algorithm).0 && kp.spec_public().spec_key_data()
                == deterministic_keypair_data(algorithm).1),
    {
        match self.should_inject_error("generate_keypair") {
            Some(e) => return Err(e),
            None => {},
        }
        match algorithm {
            KeyAlgorithm::Rsa2048 | KeyAlgorithm::Rsa3072 | KeyAlgorithm::Rsa4096 => {
                let private_key = match MockKey::new_rsa_private(algorithm, &self.config) {
                    Ok(k) => k,
                    Err(e) => return Err(e),
                };
                let public_key = match MockKey::new_rsa_public(algorithm, &self.config) {
                    Ok(k) => k,
                    Err(e) => return Err(e),
                };
                Ok(MockKeyPair::new(private_key, public_key))
            },
            KeyAlgorithm::EcdsaP256 | KeyAlgorithm::EcdsaP384 => {
                let private_key = match MockKey::new_ecdsa_private(algorithm, &self.config) {
                    Ok(k) => k,
                    Err(e) => return Err(e),
                };
                let public_key = match MockKey::new_ecdsa_public(algorithm, &self.config) {
                    Ok(k) => k,
                    Err(e) => return Err(e),
                };
                Ok(MockKeyPair::new(private_key, public_key))
            },
            _ => {
                let msg = String::from_str("Key generation for ").concat(algorithm.debug_name()).concat(
                    " not supported",
                );
                Err(BackendError::UnsupportedAlgorithm(msg))
            },
        }
    }

    /// Generate a symmetric key: AES-256 only.
    pub fn generate_key(&self, algorithm: KeyAlgorithm, config: Option<ContextConfig>) -> (r: BackendResult<MockKey>)
        ensures
            crate::mock::config::config_injects(self.config@, "generate_key"@) ==> injected_error(
                self.config@,
                "generate_key"@,
                err_of(r),
            ),
            !crate::mock::config::config_injects(self.config@, "generate_key"@) && algorithm != KeyAlgorithm::Aes256
                ==> (r matches Err(BackendError::UnsupportedAlgorithm(m)) && m@ == key_unsupported_msg(algorithm)),
            !crate::mock::config::config_injects(self.config@, "generate_key"@) && algorithm == KeyAlgorithm::Aes256
                ==> (r matches Ok(k) && k.spec_algorithm() == algorithm && k.spec_key_type() == KeyType::Secret
                && k.spec_key_data().len() == 32 && k.spec_usage() == symmetric_usage() && (self.config.deterministic
                ==> k.spec_key_data() == seeded_bytes(DEFAULT_SEED as int, 32))),
    {
        match self.should_inject_error("generate_key") {
            Some(e) => return Err(e),
            None => {},
        }
        match algorithm {
            KeyAlgorithm::Aes256 => MockKey::new_symmetric(algorithm, &self.config),
            _ => {
                let msg = String::from_str("Symmetric key generation for ").concat(algorithm.debug_name()).concat(
                    " not supported",
                );
                Err(BackendError::UnsupportedAlgorithm(msg))
            },
        }
    }

    /// Import a key: a secret AES-256 key of exactly 32 bytes, or any private or
    /// public key.
    pub fn import_key(
        &self,
        key_type: KeyType,
        algorithm: KeyAlgorithm,
        key_data: &[u8],
        config: Option<ContextConfig>,
    ) -> (r: BackendResult<MockKey>)
        ensures
            crate::mock::config::config_injects(self.config@, "import_key"@) ==> injected_error(
                self.config@,
                "import_key"@,
                err_of(r),
            ),
            !crate::mock::config::config_injects(self.config@, "import_key"@) ==> (match key_type {
                KeyType::Secret => if algorithm == KeyAlgorithm::Aes256 {
                    if key_data@.len() != 32 {
                        r matches Err(BackendError::InvalidKeyData(m)) && m@ == "AES-256 key must be 32 bytes"@
                    } else {
                        r matches Ok(k) && k.spec_key_type() == KeyType::Secret && k.spec_algorithm() == algorithm
                            && k.spec_key_data() == key_data@ && k.spec_usage() == symmetric_usage()
                            && k.spec_extractable() && !k.spec_sensitive()
                    }
                } else {
                    r matches Err(BackendError::UnsupportedAlgorithm(m)) && m@ == "Key import for "@
                        + key_type_name(key_type) + " "@ + alg_debug(algorithm) + " not supported"@
                },
                KeyType::Private => r matches Ok(k) && k.spec_key_type() == KeyType::Private && k.spec_algorithm()
                    == algorithm && k.spec_key_data() == key_data@ && k.spec_usage() == imported_private_usage(
                    algorithm,
                ),
                KeyType::Public => r matches Ok(k) && k.spec_key_type() == KeyType::Public && k.spec_algorithm()
                    == algorithm && k.spec_key_data() == key_data@ && k.spec_usage() == imported_public_usage(
                    algorithm,
                ),
            }),
    {
        match self.should_inject_error("import_key") {
            Some(e) => return Err(e),
            None => {},
        }
        match (key_type, algorithm) {
            (KeyType::Secret, KeyAlgorithm::Aes256) => {
                if key_data.len() != 32 {
                    return Err(BackendError::InvalidKeyData(String::from_str("AES-256 key must be 32 bytes")));
                }
                MockKey::import_symmetric(algorithm, key_data, &self.config)
            },
            (KeyType::Private, _) => MockKey::import_private(algorithm, key_data, &self.config),
            (KeyType::Public, _) => MockKey::import_public(algorithm, key_data, &self.config),
            _ => {
                let msg = String::from_str("Key import for ").concat(key_type.name()).concat(" ").concat(
                    algorithm.debug_name(),
                ).concat(" not supported");
                Err(BackendError::UnsupportedAlgorithm(msg))
            },
        }
    }

    /// Import a key pair; without public data the public key is derived from
    /// the private one.
    pub fn import_keypair(
        &self,
        algorithm: KeyAlgorithm,
        private_key_data: &[u8],
        public_key_data: Option<&[u8]>,
        config: Option<ContextConfig>,
    ) -> (r: BackendResult<MockKeyPair>)
        ensures
            injected_error(self.config@, "import_keypair"@, err_of(r)),
            r matches Ok(kp) ==> kp.spec_private().spec_key_data() == private_key_data@
                && kp.spec_private().spec_key_type() == KeyType::Private && kp.spec_private().spec_algorithm()
                == algorithm && kp.spec_public().spec_key_type() == KeyType::Public
                && kp.spec_public().spec_algorithm() == algorithm && kp.spec_public().spec_usage()
                == imported_public_usage(algorithm) && match public_key_data {
                Some(p) => kp.spec_public().spec_key_data() == p@,
                None => kp.spec_public().spec_key_data() == bumped(private_key_data@),
            },
    {
        match self.should_inject_error("import_keypair") {
            Some(e) => return Err(e),
            None => {},
        }
        let private_key = match MockKey::import_private(algorithm, private_key_data, &self.config) {
            Ok(k) => k,
            Err(e) => return Err(e),
        };
        let public_key = match public_key_data {
            Some(pub_data) => match MockKey::import_public(algorithm, pub_data, &self.config) {
                Ok(k) => k,
                Err(e) => return Err(e),
            },
            None => match MockKey::derive_public_from_private(&private_key) {
                Ok(k) => k,
                Err(e) => return Err(e),
            },
        };
        Ok(MockKeyPair::new(private_key, public_key))
    }

    /// Import a certificate from DER bytes.
    pub fn import_certificate(&self, cert_data: &[u8], config: Option<ContextConfig>) -> (r: BackendResult<
        MockCertificate,
    >)
        ensures
            injected_error(self.config@, "import_certificate"@, err_of(r)),
            r matches Ok(c) ==> c.spec_der() == cert_data@,
    {
        match self.should_inject_error("import_certificate") {
            Some(e) => return Err(e),
            None => {},
        }
        MockCertificate::import(cert_data, &self.config)
    }

    /// A digest context for SHA-256, SHA-384 or SHA-512.
    pub fn create_digest_context(&self, algorithm: DigestAlgorithm, config: Option<ContextConfig>) -> (r:
        BackendResult<MockDigestContext>)
        ensures
            crate::mock::config::config_injects(self.config@, "create_digest_context"@) ==> injected_error(
                self.config@,
                "create_digest_context"@,
                err_of(r),
            ),
            !crate::mock::config::config_injects(self.config@, "create_digest_context"@) ==> (
            mock_digest_supported(algorithm) <==> r is Ok),
            r matches Ok(c) ==> c.algorithm == algorithm && c.context.config@ == self.config@ && c.absorbed@.len()
                == 0,
    {
        match self.should_inject_error("create_digest_context") {
            Some(e) => return Err(e),
            None => {},
        }
        MockDigestContext::new(algorithm, &self.config)
    }

    /// A sign context over a copy of `key`.
    pub fn create_sign_context(&self, mechanism: Mechanism, key: &MockKey, config: Option<ContextConfig>) -> (r:
        BackendResult<MockSignContext>)
        ensures
            crate::mock::config::config_injects(self.config@, "create_sign_context"@) ==> injected_error(
                self.config@,
                "create_sign_context"@,
                err_of(r),
            ),
            !crate::mock::config::config_injects(self.config@, "create_sign_context"@) ==> (key.spec_usage().sign
                <==> r is Ok),
            r matches Ok(c) ==> c.mechanism == mechanism && same_key(c.key, *key) && c.context.config@
                == self.config@ && c.data_buffer@.len() == 0,
    {
        match self.should_inject_error("create_sign_context") {
            Some(e) => return Err(e),
            None => {},
        }
        MockSignContext::new(mechanism, key.duplicate(), &self.config)
    }

    /// A verify context over a copy of `key`.
    pub fn create_verify_context(&self, mechanism: Mechanism, key: &MockKey, config: Option<ContextConfig>) -> (r:
        BackendResult<MockVerifyContext>)
        ensures
            crate::mock::config::config_injects(self.config@, "create_verify_context"@) ==> injected_error(
                self.config@,
                "create_verify_context"@,
                err_of(r),
            ),
            !crate::mock::config::config_injects(self.config@, "create_verify_context"@) ==> (
            key.spec_usage().verify <==> r is Ok),
            r matches Ok(c) ==> c.mechanism == mechanism && same_key(c.key, *key) && c.context.config@
                == self.config@ && c.data_buffer@.len() == 0,
    {
        match self.should_inject_error("create_verify_context") {
            Some(e) => return Err(e),
            None => {},
        }
        MockVerifyContext::new(mechanism, key.duplicate(), &self.config)
    }

    /// An encrypt context over a copy of `key`.
    pub fn create_encrypt_context(&self, mechanism: Mechanism, key: &MockKey, config: Option<ContextConfig>) -> (r:
        BackendResult<MockEncryptContext>)
        ensures
            crate::mock::config::config_injects(self.config@, "create_encrypt_context"@) ==> injected_error(
                self.config@,
                "create_encrypt_context"@,
                err_of(r),
            ),
            !crate::mock::config::config_injects(self.config@, "create_encrypt_context"@) ==> (
            key.spec_usage().encrypt <==> r is Ok),
            r matches Ok(c) ==> c.mechanism == mechanism && same_key(c.key, *key) && c.context.config@
                == self.config@ && c.data_buffer@.len() == 0,
    {
        match self.should_inject_error("create_encrypt_context") {
            Some(e) => return Err(e),
            None => {},
        }
        MockEncryptContext::new(mechanism, key.duplicate(), &self.config)
    }

    /// A decrypt context over a copy of `key`.
    pub fn create_decrypt_context(&self, mechanism: Mechanism, key: &MockKey, config: Option<ContextConfig>) -> (r:
        BackendResult<MockDecryptContext>)
        ensures
            crate::mock::config::config_injects(self.config@, "create_decrypt_context"@) ==> injected_error(
                self.config@,
                "create_decrypt_context"@,
                err_of(r),
            ),
            !crate::mock::config::config_injects(self.config@, "create_decrypt_context"@) ==> (
            key.spec_usage().decrypt <==> r is Ok),
            r matches Ok(c) ==> c.mechanism == mechanism && same_key(c.key, *key) && c.context.config@
                == self.config@ && c.data_buffer@.len() == 0,
    {
        match self.should_inject_error("create_decrypt_context") {
            Some(e) => return Err(e),
            None => {},
        }
        MockDecryptContext::new(mechanism, key.duplicate(), &self.config)
    }

    /// `length` bytes: `0, 1, 2, ...` (mod 256) in deterministic mode, random
    /// otherwise.
    pub fn generate_random(&self, length: usize) -> (r: BackendResult<Vec<u8>>)
        ensures
            injected_error(self.config@, "generate_random"@, err_of(r)),
            r matches Ok(v) ==> v@.len() == length && (self.config.deterministic ==> v@ == counting_bytes(
                length as nat,
            )),
    {
        match self.should_inject_error("generate_random") {
            Some(e) => return Err(e),
            None => {},
        }
        if self.config.deterministic {
            let bytes = seeded_or_random(true, 0, length);
            proof {
                assert(bytes@ =~= counting_bytes(length as nat));
            }
            Ok(bytes)
        } else {
            Ok(random_bytes(length))
        }
    }

    /// Key derivation is not offered by the mock.
    pub fn derive_key(
        &self,
        mechanism: Mechanism,
        base_key: &MockKey,
        params: &MechanismParams,
        target_algorithm: KeyAlgorithm,
        config: Option<ContextConfig>,
    ) -> (r: BackendResult<MockKey>)
        ensures
            crate::mock::config::config_injects(self.config@, "derive_key"@) ==> injected_error(
                self.config@,
                "derive_key"@,
                err_of(r),
            ),
            !crate::mock::config::config_injects(self.config@, "derive_key"@) ==> (r matches Err(
                BackendError::UnsupportedOperation(m),
            ) && m@ == "Key derivation not implemented in mock"@),
    {
        match self.should_inject_error("derive_key") {
            Some(e) => return Err(e),
            None => {},
        }
        Err(BackendError::UnsupportedOperation(String::from_str("Key derivation not implemented in mock")))
    }

    /// Key agreement is not offered by the mock.
    pub fn key_agreement(
        &self,
        mechanism: Mechanism,
        private_key: &MockKey,
        public_key: &MockKey,
        config: Option<ContextConfig>,
    ) -> (r: BackendResult<Vec<u8>>)
        ensures
            crate::mock::config::config_injects(self.config@, "key_agreement"@) ==> injected_error(
                self.config@,
                "key_agreement"@,
                err_of(r),
            ),
            !crate::mock::config::config_injects(self.config@, "key_agreement"@) ==> (r matches Err(
                BackendError::UnsupportedOperation(m),
            ) && m@ == "Key agreement not implemented in mock"@),
    {
        match self.should_inject_error("key_agreement") {
            Some(e) => return Err(e),
            None => {},
        }
        Err(BackendError::UnsupportedOperation(String::from_str("Key agreement not implemented in mock")))
    }
}

impl Default for MockBackend {
    /// The mock backend with the default configuration.
    fn default() -> (r: Self)
        ensures
            r.info.name@ == "Mock Backend"@,
            r.config@ == MockConfig::spec_default_view(),
    {
        MockBackend { info: mock_info(), config: MockConfig::default() }
    }
}

} // verus!
