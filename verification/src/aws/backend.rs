//! The AWS-LC backend: mechanism support, key generation and import,
//! contexts and randomness.

use vstd::prelude::*;
use crate::aws::context::{AwsLcDecryptContext, AwsLcDigestContext, AwsLcSignContext, aws_alg_for};
use crate::aws::key::{AwsLcKey, AwsLcKeyPair, KeyData, PairBytes, RsaKeyPairBytes, RsaPublicKeyComponents, key_data_public};
use crate::aws::lc::{EcCurve, RsaSize, aws_ec_public_point, ecdsa_generate_pkcs8, ecdsa_public_point, fill_random, rsa_generate, rsa_modulus_len};
use crate::info::{BackendCapabilities, BackendInfo};
use crate::traits::key::{Key, KeyPair};
use crate::types::context::{ContextConfig, MechanismParams};
use crate::types::error::{BackendError, BackendResult};
use crate::types::key::{KeyAlgorithm, KeyType, alg_debug, key_type_name};
use crate::types::mechanism::{DigestAlgorithm, Mechanism, mech_debug};

verus! {

/// The mechanisms the AWS-LC backend supports: every digest; RSA PKCS#1 and
/// PSS with SHA-256, SHA-384 or SHA-512; ECDSA with SHA-256 or SHA-384.
pub open spec fn aws_supports(m: Mechanism) -> bool {
    match m {
        Mechanism::Digest(_) => true,
        Mechanism::RsaPkcs1 { digest: Some(d) } => d == DigestAlgorithm::Sha256 || d == DigestAlgorithm::Sha384 || d
            == DigestAlgorithm::Sha512,
        Mechanism::RsaPkcs1Pss { digest, .. } => digest == DigestAlgorithm::Sha256 || digest == DigestAlgorithm::Sha384
            || digest == DigestAlgorithm::Sha512,
        Mechanism::Ecdsa { digest: Some(d) } => d == DigestAlgorithm::Sha256 || d == DigestAlgorithm::Sha384,
        _ => false,
    }
}

/// The mechanisms the backend lists, in order.
pub open spec fn aws_mechanism_list() -> Seq<Mechanism> {
    seq![
        Mechanism::Digest(DigestAlgorithm::Sha256),
        Mechanism::Digest(DigestAlgorithm::Sha384),
        Mechanism::Digest(DigestAlgorithm::Sha512),
        Mechanism::RsaPkcs1 { digest: Some(DigestAlgorithm::Sha256) },
        Mechanism::RsaPkcs1 { digest: Some(DigestAlgorithm::Sha384) },
        Mechanism::RsaPkcs1 { digest: Some(DigestAlgorithm::Sha512) },
        Mechanism::RsaPkcs1Pss { digest: DigestAlgorithm::Sha256, mgf: DigestAlgorithm::Sha256, salt_len: 32 },
        Mechanism::Ecdsa { digest: Some(DigestAlgorithm::Sha256) },
        Mechanism::Ecdsa { digest: Some(DigestAlgorithm::Sha384) },
    ]
}

/// The RSA signature algorithms of AWS-LC.
#[derive(Debug, Clone, Copy, PartialEq, Eq, Structural)]
pub enum RsaSignatureAlgorithm {
    Pkcs1Sha256,
    Pkcs1Sha384,
    Pkcs1Sha512,
    PssSha256,
    PssSha384,
    PssSha512,
}

/// The ECDSA signing algorithms of AWS-LC.
#[derive(Debug, Clone, Copy, PartialEq, Eq, Structural)]
pub enum EcdsaSigningAlgorithm {
    P256Sha256Asn1,
    P384Sha384Asn1,
}

/// The RSA signature algorithm of a mechanism, if it has one.
pub open spec fn rsa_sig_alg(m: Mechanism) -> Option<RsaSignatureAlgorithm> {
    match m {
        Mechanism::RsaPkcs1 { digest: Some(DigestAlgorithm::Sha256) } => Some(RsaSignatureAlgorithm::Pkcs1Sha256),
        Mechanism::RsaPkcs1 { digest: Some(DigestAlgorithm::Sha384) } => Some(RsaSignatureAlgorithm::Pkcs1Sha384),
        Mechanism::RsaPkcs1 { digest: Some(DigestAlgorithm::Sha512) } => Some(RsaSignatureAlgorithm::Pkcs1Sha512),
        Mechanism::RsaPkcs1Pss { digest: DigestAlgorithm::Sha256, .. } => Some(RsaSignatureAlgorithm::PssSha256),
        Mechanism::RsaPkcs1Pss { digest: DigestAlgorithm::Sha384, .. } => Some(RsaSignatureAlgorithm::PssSha384),
        Mechanism::RsaPkcs1Pss { digest: DigestAlgorithm::Sha512, .. } => Some(RsaSignatureAlgorithm::PssSha512),
        _ => None,
    }
}

/// The ECDSA signing algorithm of a mechanism, if it has one.
pub open spec fn ecdsa_sig_alg(m: Mechanism) -> Option<EcdsaSigningAlgorithm> {
    match m {
        Mechanism::Ecdsa { digest: Some(DigestAlgorithm::Sha256) } => Some(EcdsaSigningAlgorithm::P256Sha256Asn1),
        Mechanism::Ecdsa { digest: Some(DigestAlgorithm::Sha384) } => Some(EcdsaSigningAlgorithm::P384Sha384Asn1),
        _ => None,
    }
}

/// The result of an AWS-LC operation that failed with message `m`, under
/// the error kind `kind` and the message prefix `prefix`.
pub open spec fn failed_with(r: BackendError, prefix: Seq<char>, m: Seq<char>) -> bool {
    match r {
        BackendError::KeyGeneration(s) => s@ == prefix + m,
        BackendError::RandomGeneration(s) => s@ == prefix + m,
        _ => false,
    }
}

/// The AWS-LC backend.
#[derive(Debug)]
pub struct AwsLcBackend {
    pub info: BackendInfo,
}

/// The capabilities of the AWS-LC backend: a hardware RNG and side-channel
/// resistance.
pub open spec fn aws_capabilities() -> BackendCapabilities {
    BackendCapabilities { hardware_keys: false, secure_storage: false, hardware_rng: true, side_channel_resistant: true }
}

impl AwsLcBackend {
    /// The AWS-LC backend.
    pub fn new() -> (r: BackendResult<Self>)
        ensures
            r matches Ok(b) && b.info.name@ == "AWS-LC Backend"@ && b.info.version@ == "1.0.0"@ && b.info.description@
                == "AWS-LC cryptographic backend implementation"@ && b.info.capabilities == aws_capabilities(),
    {
        let info = BackendInfo::new(
            "AWS-LC Backend",
            "1.0.0",
            "AWS-LC cryptographic backend implementation",
            BackendCapabilities {
                hardware_keys: false,
                secure_storage: false,
                hardware_rng: true,
                side_channel_resistant: true,
            },
        );
        Ok(AwsLcBackend { info })
    }

    /// The RSA signature algorithm of `mechanism`; other mechanisms are
    /// refused.
    pub fn mechanism_to_signature_algorithm(mechanism: &Mechanism) -> (r: BackendResult<RsaSignatureAlgorithm>)
        ensures
            rsa_sig_alg(*mechanism) matches Some(a) ==> r == Ok::<RsaSignatureAlgorithm, BackendError>(a),
            rsa_sig_alg(*mechanism) is None ==> (r matches Err(BackendError::UnsupportedMechanism(m)) && m@
                == "Mechanism "@ + mech_debug(*mechanism) + " not supported"@),
    {
        match mechanism {
            Mechanism::RsaPkcs1 { digest: Some(DigestAlgorithm::Sha256) } => Ok(RsaSignatureAlgorithm::Pkcs1Sha256),
            Mechanism::RsaPkcs1 { digest: Some(DigestAlgorithm::Sha384) } => Ok(RsaSignatureAlgorithm::Pkcs1Sha384),
            Mechanism::RsaPkcs1 { digest: Some(DigestAlgorithm::Sha512) } => Ok(RsaSignatureAlgorithm::Pkcs1Sha512),
            Mechanism::RsaPkcs1Pss { digest: DigestAlgorithm::Sha256, .. } => Ok(RsaSignatureAlgorithm::PssSha256),
            Mechanism::RsaPkcs1Pss { digest: DigestAlgorithm::Sha384, .. } => Ok(RsaSignatureAlgorithm::PssSha384),
            Mechanism::RsaPkcs1Pss { digest: DigestAlgorithm::Sha512, .. } => Ok(RsaSignatureAlgorithm::PssSha512),
            _ => {
                let d = mechanism.debug_string();
                Err(
                    BackendError::UnsupportedMechanism(
                        String::from_str("Mechanism ").concat(d.as_str()).concat(" not supported"),
                    ),
                )
            },
        }
    }

    /// The ECDSA signing algorithm of `mechanism`; other mechanisms are
    /// refused.
    pub fn mechanism_to_ecdsa_algorithm(mechanism: &Mechanism) -> (r: BackendResult<EcdsaSigningAlgorithm>)
        ensures
            ecdsa_sig_alg(*mechanism) matches Some(a) ==> r == Ok::<EcdsaSigningAlgorithm, BackendError>(a),
            ecdsa_sig_alg(*mechanism) is None ==> (r matches Err(BackendError::UnsupportedMechanism(m)) && m@
                == "ECDSA mechanism "@ + mech_debug(*mechanism) + " not supported"@),
    {
        match mechanism {
            Mechanism::Ecdsa { digest: Some(DigestAlgorithm::Sha256) } => Ok(EcdsaSigningAlgorithm::P256Sha256Asn1),
            Mechanism::Ecdsa { digest: Some(DigestAlgorithm::Sha384) } => Ok(EcdsaSigningAlgorithm::P384Sha384Asn1),
            _ => {
                let d = mechanism.debug_string();
                Err(
                    BackendError::UnsupportedMechanism(
                        String::from_str("ECDSA mechanism ").concat(d.as_str()).concat(" not supported"),
                    ),
                )
            },
        }
    }

    /// The backend's information.
    pub fn info(&self) -> (r: &BackendInfo)
        ensures
            *r == self.info,
    {
        &self.info
    }

    /// Whether the backend supports `mechanism`.
    pub fn supports_mechanism(&self, mechanism: &Mechanism) -> (r: bool)
        ensures
            r == aws_supports(*mechanism),
    {
        match mechanism {
            Mechanism::Digest(_) => true,
            Mechanism::RsaPkcs1 { digest: Some(DigestAlgorithm::Sha256) } => true,
            Mechanism::RsaPkcs1 { digest: Some(DigestAlgorithm::Sha384) } => true,
            Mechanism::RsaPkcs1 { digest: Some(DigestAlgorithm::Sha512) } => true,
            Mechanism::RsaPkcs1Pss { digest: DigestAlgorithm::Sha256, .. } => true,
            Mechanism::RsaPkcs1Pss { digest: DigestAlgorithm::Sha384, .. } => true,
            Mechanism::RsaPkcs1Pss { digest: DigestAlgorithm::Sha512, .. } => true,
            Mechanism::Ecdsa { digest: Some(DigestAlgorithm::Sha256) } => true,
            Mechanism::Ecdsa { digest: Some(DigestAlgorithm::Sha384) } => true,
            _ => false,
        }
    }

    /// The mechanisms the backend lists; each is supported.
    pub fn supported_mechanisms(&self) -> (r: Vec<Mechanism>)
        ensures
            r@ == aws_mechanism_list(),
            forall|i: int| 0 <= i < r@.len() ==> aws_supports(#[trigger] r@[i]),
    {
        let mut v: Vec<Mechanism> = Vec::new();
        v.push(Mechanism::Digest(DigestAlgorithm::Sha256));
        v.push(Mechanism::Digest(DigestAlgorithm::Sha384));
        v.push(Mechanism::Digest(DigestAlgorithm::Sha512));
        v.push(Mechanism::RsaPkcs1 { digest: Some(DigestAlgorithm::Sha256) });
        v.push(Mechanism::RsaPkcs1 { digest: Some(DigestAlgorithm::Sha384) });
        v.push(Mechanism::RsaPkcs1 { digest: Some(DigestAlgorithm::Sha512) });
        v.push(
            Mechanism::RsaPkcs1Pss { digest: DigestAlgorithm::Sha256, mgf: DigestAlgorithm::Sha256, salt_len: 32 },
        );
        v.push(Mechanism::Ecdsa { digest: Some(DigestAlgorithm::Sha256) });
        v.push(Mechanism::Ecdsa { digest: Some(DigestAlgorithm::Sha384) });
        v
    }

    /// The key algorithms the backend lists.
    pub fn supported_key_algorithms(&self) -> (r: Vec<KeyAlgorithm>)
        ensures
            r@ == seq![
                KeyAlgorithm::Rsa2048,
                KeyAlgorithm::Rsa3072,
                KeyAlgorithm::Rsa4096,
                KeyAlgorithm::EcdsaP256,
                KeyAlgorithm::EcdsaP384,
                KeyAlgorithm::Aes256,
            ],
    {
        let mut v: Vec<KeyAlgorithm> = Vec::new();
        v.push(KeyAlgorithm::Rsa2048);
        v.push(KeyAlgorithm::Rsa3072);
        v.push(KeyAlgorithm::Rsa4096);
        v.push(KeyAlgorithm::EcdsaP256);
        v.push(KeyAlgorithm::EcdsaP384);
        v.push(KeyAlgorithm::Aes256);
        v
    }

    /// Generate a key pair: RSA-2048 and ECDSA P-256 only. The public key of
    /// the pair carries the public part of the private key.
    pub fn generate_keypair(&self, algorithm: KeyAlgorithm, config: Option<ContextConfig>) -> (r: BackendResult<
        AwsLcKeyPair,
    >)
        ensures
            algorithm != KeyAlgorithm::Rsa2048 && algorithm != KeyAlgorithm::EcdsaP256 ==> (r matches Err(
                BackendError::UnsupportedAlgorithm(m),
            ) && m@ == "Key generation for "@ + alg_debug(algorithm) + " not supported"@),
            r is Err && (algorithm == KeyAlgorithm::Rsa2048 || algorithm == KeyAlgorithm::EcdsaP256) ==> (r matches Err(
                BackendError::KeyGeneration(_),
            )),
            r matches Ok(kp) ==> kp.spec_private().spec_algorithm() == algorithm && kp.spec_public().spec_algorithm()
                == algorithm && kp.spec_private().spec_key_type() == KeyType::Private
                && kp.spec_public().spec_key_type() == KeyType::Public && key_data_public(
                kp.spec_public().spec_key_data(),
            ) == key_data_public(kp.spec_private().spec_key_data()),
            r matches Ok(kp) ==> (algorithm == KeyAlgorithm::Rsa2048 ==> (kp.spec_private().spec_key_data() matches KeyData::RsaKeyPair(
                b,
            ) && b.modulus@.len() == rsa_modulus_len(RsaSize::Rsa2048))),
            r matches Ok(kp) ==> (algorithm == KeyAlgorithm::EcdsaP256 ==> (kp.spec_private().spec_key_data() matches KeyData::EcdsaKeyPair(
                b,
            ) && aws_ec_public_point(EcCurve::P256, b.pkcs8@) == Some(b.public_key@))),
    {
        match algorithm {
            KeyAlgorithm::Rsa2048 => {
                let (pkcs8, modulus) = match rsa_generate(RsaSize::Rsa2048) {
                    Ok(p) => p,
                    Err(e) => {
                        return Err(
                            BackendError::KeyGeneration(
                                String::from_str("RSA key generation failed: ").concat(e.as_str()),
                            ),
                        )
                    },
                };
                let private_key = match AwsLcKey::new_rsa_keypair(
                    RsaKeyPairBytes { pkcs8, modulus },
                    algorithm,
                    KeyType::Private,
                ) {
                    Ok(k) => k,
                    Err(e) => return Err(e),
                };
                let public_key_bytes = match private_key.export_public_key() {
                    Ok(b) => b,
                    Err(e) => return Err(e),
                };
                let mut exponent: Vec<u8> = Vec::new();
                exponent.push(0x01);
                exponent.push(0x00);
                exponent.push(0x01);
                let public_key = match AwsLcKey::new_rsa_public_key(
                    RsaPublicKeyComponents { n: public_key_bytes, e: exponent },
                    algorithm,
                ) {
                    Ok(k) => k,
                    Err(e) => return Err(e),
                };
                Ok(AwsLcKeyPair::new(private_key, public_key))
            },
            KeyAlgorithm::EcdsaP256 => {
                let pkcs8 = match ecdsa_generate_pkcs8(EcCurve::P256) {
                    Ok(d) => d,
                    Err(e) => {
                        return Err(
                            BackendError::KeyGeneration(
                                String::from_str("ECDSA key generation failed: ").concat(e.as_str()),
                            ),
                        )
                    },
                };
                let public_point = match ecdsa_public_point(EcCurve::P256, pkcs8.as_slice()) {
                    Ok(p) => p,
                    Err(e) => {
                        return Err(
                            BackendError::KeyGeneration(
                                String::from_str("ECDSA key pair creation failed: ").concat(e.as_str()),
                            ),
                        )
                    },
                };
                let private_key = match AwsLcKey::new_ecdsa_keypair(
                    PairBytes { pkcs8, public_key: public_point },
                    algorithm,
                    KeyType::Private,
                ) {
                    Ok(k) => k,
                    Err(e) => return Err(e),
                };
                let public_key_der = match private_key.export_public_key() {
                    Ok(b) => b,
                    Err(e) => return Err(e),
                };
                let public_key = match AwsLcKey::new_ecdsa_public_key(public_key_der, algorithm) {
                    Ok(k) => k,
                    Err(e) => return Err(e),
                };
                Ok(AwsLcKeyPair::new(private_key, public_key))
            },
            _ => {
                let msg = String::from_str("Key generation for ").concat(algorithm.debug_name()).concat(
                    " not supported",
                );
                Err(BackendError::UnsupportedAlgorithm(msg))
            },
        }
    }

    /// Generate a symmetric key: AES-256 only, 32 random bytes.
    pub fn generate_key(&self, algorithm: KeyAlgorithm, config: Option<ContextConfig>) -> (r: BackendResult<AwsLcKey>)
        ensures
            algorithm != KeyAlgorithm::Aes256 ==> (r matches Err(BackendError::UnsupportedAlgorithm(m)) && m@
                == "Symmetric key generation for "@ + alg_debug(algorithm) + " not supported"@),
            algorithm == KeyAlgorithm::Aes256 ==> (r is Err ==> r matches Err(BackendError::KeyGeneration(_))),
            r matches Ok(k) ==> k.spec_algorithm() == KeyAlgorithm::Aes256 && k.spec_key_type() == KeyType::Secret
                && (k.spec_key_data() matches KeyData::SymmetricKey(b) && b@.len() == 32) && !k.spec_extractable(),
    {
        match algorithm {
            KeyAlgorithm::Aes256 => {
                let key_bytes = match fill_random(32) {
                    Ok(b) => b,
                    Err(e) => {
                        return Err(
                            BackendError::KeyGeneration(
                                String::from_str("AES key generation failed: ").concat(e.as_str()),
                            ),
                        )
                    },
                };
                AwsLcKey::new_symmetric_key(key_bytes, algorithm)
            },
            _ => {
                let msg = String::from_str("Symmetric key generation for ").concat(algorithm.debug_name()).concat(
                    " not supported",
                );
                Err(BackendError::UnsupportedAlgorithm(msg))
            },
        }
    }

    /// Import a key: a secret AES-256 key of exactly 32 bytes only.
    pub fn import_key(
        &self,
        key_type: KeyType,
        algorithm: KeyAlgorithm,
        key_data: &[u8],
        config: Option<ContextConfig>,
    ) -> (r: BackendResult<AwsLcKey>)
        ensures
            key_type == KeyType::Secret && algorithm == KeyAlgorithm::Aes256 && key_data@.len() != 32 ==> (r matches Err(
                BackendError::InvalidKeyData(m),
            ) && m@ == "AES-256 key must be 32 bytes"@),
            key_type == KeyType::Secret && algorithm == KeyAlgorithm::Aes256 && key_data@.len() == 32 ==> (r matches Ok(
                k,
            ) && (k.spec_key_data() matches KeyData::SymmetricKey(b) && b@ == key_data@)
                && k.spec_key_type() == KeyType::Secret),
            !(key_type == KeyType::Secret && algorithm == KeyAlgorithm::Aes256) ==> (r matches Err(
                BackendError::UnsupportedAlgorithm(m),
            ) && m@ == "Key import for "@ + key_type_name(key_type) + " "@ + alg_debug(algorithm)
                + " not supported"@),
    {
        match (key_type, algorithm) {
            (KeyType::Secret, KeyAlgorithm::Aes256) => {
                if key_data.len() != 32 {
                    return Err(BackendError::InvalidKeyData(String::from_str("AES-256 key must be 32 bytes")));
                }
                AwsLcKey::new_symmetric_key(vstd::slice::slice_to_vec(key_data), algorithm)
            },
            _ => {
                let msg = String::from_str("Key import for ").concat(key_type.name()).concat(" ").concat(
                    algorithm.debug_name(),
                ).concat(" not supported");
                Err(BackendError::UnsupportedAlgorithm(msg))
            },
        }
    }

    /// Key pair import is not implemented.
    pub fn import_keypair(
        &self,
        algorithm: KeyAlgorithm,
        private_key_data: &[u8],
        public_key_data: Option<&[u8]>,
        config: Option<ContextConfig>,
    ) -> (r: BackendResult<AwsLcKeyPair>)
        ensures
            r matches Err(BackendError::UnsupportedOperation(m)) && m@ == "Key pair import not implemented"@,
    {
        Err(BackendError::UnsupportedOperation(String::from_str("Key pair import not implemented")))
    }

    /// Certificate import is not implemented.
    pub fn import_certificate(&self, cert_data: &[u8], config: Option<ContextConfig>) -> (r: BackendResult<
        crate::aws::key::AwsLcCertificate,
    >)
        ensures
            r matches Err(BackendError::UnsupportedOperation(m)) && m@ == "Certificate import not implemented"@,
    {
        Err(BackendError::UnsupportedOperation(String::from_str("Certificate import not implemented")))
    }

    /// A digest context for `algorithm`.
    pub fn create_digest_context(&self, algorithm: DigestAlgorithm, config: Option<ContextConfig>) -> (r:
        BackendResult<AwsLcDigestContext>)
        ensures
            r is Ok <==> aws_alg_for(algorithm) is Some,
            r matches Ok(c) ==> c.algorithm == algorithm,
    {
        AwsLcDigestContext::new(algorithm)
    }

    /// A sign context over a copy of `key`.
    pub fn create_sign_context(&self, mechanism: Mechanism, key: &AwsLcKey, config: Option<ContextConfig>) -> (r:
        BackendResult<AwsLcSignContext>)
        ensures
            r matches Ok(c) && c.mechanism == mechanism && c.key.spec_algorithm() == key.spec_algorithm(),
    {
        AwsLcSignContext::new(mechanism, key.duplicate())
    }

    /// A decrypt context over a copy of `key`.
    pub fn create_decrypt_context(&self, mechanism: Mechanism, key: &AwsLcKey, config: Option<ContextConfig>) -> (r:
        BackendResult<AwsLcDecryptContext>)
        ensures
            r matches Ok(c) && c.mechanism == mechanism && c.key.spec_algorithm() == key.spec_algorithm(),
    {
        AwsLcDecryptContext::new(mechanism, key.duplicate())
    }

    /// `length` random bytes from AWS-LC.
    pub fn generate_random(&self, length: usize) -> (r: BackendResult<Vec<u8>>)
        ensures
            r matches Ok(v) ==> v@.len() == length,
            r is Err ==> (r matches Err(BackendError::RandomGeneration(_))),
    {
        match fill_random(length) {
            Ok(bytes) => Ok(bytes),
            Err(e) => Err(
                BackendError::RandomGeneration(String::from_str("Random generation failed: ").concat(e.as_str())),
            ),
        }
    }

    /// Key derivation is not implemented.
    pub fn derive_key(
        &self,
        mechanism: Mechanism,
        base_key: &AwsLcKey,
        params: &MechanismParams,
        target_algorithm: KeyAlgorithm,
        config: Option<ContextConfig>,
    ) -> (r: BackendResult<AwsLcKey>)
        ensures
            r matches Err(BackendError::UnsupportedOperation(m)) && m@ == "Key derivation not implemented"@,
    {
        Err(BackendError::UnsupportedOperation(String::from_str("Key derivation not implemented")))
    }

    /// Key agreement is not implemented.
    pub fn key_agreement(
        &self,
        mechanism: Mechanism,
        private_key: &AwsLcKey,
        public_key: &AwsLcKey,
        config: Option<ContextConfig>,
    ) -> (r: BackendResult<Vec<u8>>)
        ensures
            r matches Err(BackendError::UnsupportedOperation(m)) && m@ == "Key agreement not implemented"@,
    {
        Err(BackendError::UnsupportedOperation(String::from_str("Key agreement not implemented")))
    }
}

} // verus!
