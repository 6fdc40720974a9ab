//! Conversions between PKCS#11 codes and backend types, hexadecimal
//! encoding, constant-time comparison and PKCS#7 padding.

use vstd::prelude::*;
use crate::text::{decimal, digit_char, digit_str, upper_hex_fixed, u32_to_hex8, usize_to_decimal};
use crate::types::error::{BackendError, BackendResult};
use crate::types::key::{KeyAlgorithm, KeyType, alg_is_rsa, alg_is_ecdsa, alg_is_symmetric, key_bits};
use crate::types::mechanism::{AesMode, DigestAlgorithm, Mechanism, digest_len};
use crate::p11::bridge::context::ck_digest_algorithm;
use crate::p11::ck::{
    CKM_AES_CBC, CKM_AES_CTR, CKM_AES_ECB, CKM_AES_GCM, CKM_ECDSA, CKM_ECDSA_SHA1, CKM_ECDSA_SHA224, CKM_ECDSA_SHA256,
    CKM_ECDSA_SHA384, CKM_ECDSA_SHA512, CKM_RSA_PKCS, CKM_RSA_PKCS_OAEP, CKM_RSA_PKCS_PSS, CKM_RSA_X_509,
    CKM_SHA1_RSA_PKCS, CKM_SHA224_HMAC, CKM_SHA224_RSA_PKCS, CKM_SHA256_HMAC, CKM_SHA256_RSA_PKCS, CKM_SHA384_HMAC,
    CKM_SHA384_RSA_PKCS, CKM_SHA512_HMAC, CKM_SHA512_RSA_PKCS, CKM_SHA_1_HMAC,
};
use vstd::utf8::{encode_utf8, is_ascii_chars, is_ascii_chars_encode_utf8};
use vstd::string::StringSliceAdditionalSpecFns;
use vstd::slice::SliceAdditionalExecFns;

verus! {

/// The backend key type of a PKCS#11 key type code, if the code is known.
pub open spec fn p11_key_type(code: u32) -> Option<KeyType> {
    if code == 0x0000_0000 {
        Some(KeyType::Public)
    } else if code == 0x0000_0001 {
        Some(KeyType::Private)
    } else if code == 0x0000_0010 || code == 0x0000_001F {
        Some(KeyType::Secret)
    } else {
        None
    }
}

/// The message of an unknown PKCS#11 key type.
pub open spec fn unknown_key_type_msg(code: u32) -> Seq<char> {
    "Unsupported PKCS#11 key type: "@ + "0x"@ + upper_hex_fixed(code as nat, 8)
}

/// Convert a PKCS#11 key type code to a backend key type.
pub fn pkcs11_key_type_to_backend(ck_key_type: u32) -> (r: BackendResult<KeyType>)
    ensures
        p11_key_type(ck_key_type) matches Some(t) ==> (r matches Ok(u) && u == t),
        p11_key_type(ck_key_type) is None ==> (r matches Err(BackendError::UnsupportedAlgorithm(s))
            && s@ == unknown_key_type_msg(ck_key_type)),
{
    match ck_key_type {
        0x0000_0000 => Ok(KeyType::Public),
        0x0000_0001 => Ok(KeyType::Private),
        0x0000_0010 => Ok(KeyType::Secret),
        0x0000_001F => Ok(KeyType::Secret),
        _ => {
            let hex = u32_to_hex8(ck_key_type);
            Err(BackendError::UnsupportedAlgorithm(
                String::from_str("Unsupported PKCS#11 key type: ").concat(hex.as_str()),
            ))
        },
    }
}

/// The PKCS#11 key type code of a backend key type and algorithm.
pub open spec fn backend_key_type_code(t: KeyType, a: KeyAlgorithm) -> u32 {
    if (t is Public || t is Private) && alg_is_rsa(a) {
        0x0000_0000
    } else if (t is Public || t is Private) && alg_is_ecdsa(a) {
        0x0000_0003
    } else if t is Secret && (a is Aes128 || a is Aes192 || a is Aes256) {
        0x0000_001F
    } else {
        0x0000_0010
    }
}

/// Convert a backend key type and algorithm to a PKCS#11 key type code:
/// `CKK_RSA`, `CKK_EC`, `CKK_AES`, or `CKK_GENERIC_SECRET` for the rest.
pub fn backend_key_type_to_pkcs11(key_type: KeyType, algorithm: KeyAlgorithm) -> (r: u32)
    ensures
        r == backend_key_type_code(key_type, algorithm),
{
    match key_type {
        KeyType::Public | KeyType::Private => {
            if algorithm.is_rsa() {
                0x0000_0000
            } else if algorithm.is_ecdsa() {
                0x0000_0003
            } else {
                0x0000_0010
            }
        },
        KeyType::Secret => match algorithm {
            KeyAlgorithm::Aes128 | KeyAlgorithm::Aes192 | KeyAlgorithm::Aes256 => 0x0000_001F,
            _ => 0x0000_0010,
        },
    }
}

/// The backend mechanism of a PKCS#11 mechanism code, if the code is known.
pub open spec fn p11_mechanism(code: u32) -> Option<Mechanism> {
    if code == 0x220 {
        Some(Mechanism::Digest(DigestAlgorithm::Sha1))
    } else if code == 0x255 {
        Some(Mechanism::Digest(DigestAlgorithm::Sha224))
    } else if code == 0x250 {
        Some(Mechanism::Digest(DigestAlgorithm::Sha256))
    } else if code == 0x260 {
        Some(Mechanism::Digest(DigestAlgorithm::Sha384))
    } else if code == 0x270 {
        Some(Mechanism::Digest(DigestAlgorithm::Sha512))
    } else if code == 0x1 {
        Some(Mechanism::RsaPkcs1 { digest: None })
    } else if code == 0x6 {
        Some(Mechanism::RsaPkcs1 { digest: Some(DigestAlgorithm::Sha1) })
    } else if code == 0x46 {
        Some(Mechanism::RsaPkcs1 { digest: Some(DigestAlgorithm::Sha224) })
    } else if code == 0x40 {
        Some(Mechanism::RsaPkcs1 { digest: Some(DigestAlgorithm::Sha256) })
    } else if code == 0x41 {
        Some(Mechanism::RsaPkcs1 { digest: Some(DigestAlgorithm::Sha384) })
    } else if code == 0x42 {
        Some(Mechanism::RsaPkcs1 { digest: Some(DigestAlgorithm::Sha512) })
    } else if code == 0xD {
        Some(
            Mechanism::RsaPkcs1Pss {
                digest: DigestAlgorithm::Sha256,
                mgf: DigestAlgorithm::Sha256,
                salt_len: 32,
            },
        )
    } else if code == 0x9 {
        Some(
            Mechanism::RsaOaep {
                hash: DigestAlgorithm::Sha256,
                mgf: DigestAlgorithm::Sha256,
                label: None,
            },
        )
    } else if code == 0x3 {
        Some(Mechanism::RsaX509)
    } else if code == 0x1041 {
        Some(Mechanism::Ecdsa { digest: None })
    } else if code == 0x1042 {
        Some(Mechanism::Ecdsa { digest: Some(DigestAlgorithm::Sha1) })
    } else if code == 0x1043 {
        Some(Mechanism::Ecdsa { digest: Some(DigestAlgorithm::Sha224) })
    } else if code == 0x1044 {
        Some(Mechanism::Ecdsa { digest: Some(DigestAlgorithm::Sha256) })
    } else if code == 0x1045 {
        Some(Mechanism::Ecdsa { digest: Some(DigestAlgorithm::Sha384) })
    } else if code == 0x1046 {
        Some(Mechanism::Ecdsa { digest: Some(DigestAlgorithm::Sha512) })
    } else if code == 0x1081 {
        Some(Mechanism::Aes { mode: AesMode::Ecb, key_size: 128 })
    } else if code == 0x1082 {
        Some(Mechanism::Aes { mode: AesMode::Cbc, key_size: 128 })
    } else if code == 0x1086 {
        Some(Mechanism::Aes { mode: AesMode::Ctr, key_size: 128 })
    } else if code == 0x1087 {
        Some(Mechanism::Aes { mode: AesMode::Gcm, key_size: 128 })
    } else if code == 0x221 {
        Some(Mechanism::Hmac { hash: DigestAlgorithm::Sha1 })
    } else if code == 0x256 {
        Some(Mechanism::Hmac { hash: DigestAlgorithm::Sha224 })
    } else if code == 0x251 {
        Some(Mechanism::Hmac { hash: DigestAlgorithm::Sha256 })
    } else if code == 0x261 {
        Some(Mechanism::Hmac { hash: DigestAlgorithm::Sha384 })
    } else if code == 0x271 {
        Some(Mechanism::Hmac { hash: DigestAlgorithm::Sha512 })
    } else {
        None
    }
}

/// The message of an unknown PKCS#11 mechanism.
pub open spec fn unknown_mechanism_msg(code: u32) -> Seq<char> {
    "Unsupported PKCS#11 mechanism: "@ + "0x"@ + upper_hex_fixed(code as nat, 8)
}

/// Convert a PKCS#11 mechanism code, as the PKCS#11 standard numbers it,
/// to a backend mechanism. The parameter
/// bytes are not read: PSS and OAEP get their SHA-256 defaults.
pub fn pkcs11_mechanism_to_backend(ck_mechanism: u32, params: Option<&[u8]>) -> (r: BackendResult<Mechanism>)
    ensures
        p11_mechanism(ck_mechanism) matches Some(m) ==> (r matches Ok(n) && n == m),
        p11_mechanism(ck_mechanism) is None ==> (r matches Err(BackendError::UnsupportedMechanism(s))
            && s@ == unknown_mechanism_msg(ck_mechanism)),
{
    match ck_mechanism {
        0x220 => Ok(Mechanism::Digest(DigestAlgorithm::Sha1)),
        0x255 => Ok(Mechanism::Digest(DigestAlgorithm::Sha224)),
        0x250 => Ok(Mechanism::Digest(DigestAlgorithm::Sha256)),
        0x260 => Ok(Mechanism::Digest(DigestAlgorithm::Sha384)),
        0x270 => Ok(Mechanism::Digest(DigestAlgorithm::Sha512)),
        0x1 => Ok(Mechanism::RsaPkcs1 { digest: None }),
        0x6 => Ok(Mechanism::RsaPkcs1 { digest: Some(DigestAlgorithm::Sha1) }),
        0x46 => Ok(Mechanism::RsaPkcs1 { digest: Some(DigestAlgorithm::Sha224) }),
        0x40 => Ok(Mechanism::RsaPkcs1 { digest: Some(DigestAlgorithm::Sha256) }),
        0x41 => Ok(Mechanism::RsaPkcs1 { digest: Some(DigestAlgorithm::Sha384) }),
        0x42 => Ok(Mechanism::RsaPkcs1 { digest: Some(DigestAlgorithm::Sha512) }),
        0xD => Ok(
            Mechanism::RsaPkcs1Pss {
                digest: DigestAlgorithm::Sha256,
                mgf: DigestAlgorithm::Sha256,
                salt_len: 32,
            },
        ),
        0x9 => Ok(
            Mechanism::RsaOaep {
                hash: DigestAlgorithm::Sha256,
                mgf: DigestAlgorithm::Sha256,
                label: None,
            },
        ),
        0x3 => Ok(Mechanism::RsaX509),
        0x1041 => Ok(Mechanism::Ecdsa { digest: None }),
        0x1042 => Ok(Mechanism::Ecdsa { digest: Some(DigestAlgorithm::Sha1) }),
        0x1043 => Ok(Mechanism::Ecdsa { digest: Some(DigestAlgorithm::Sha224) }),
        0x1044 => Ok(Mechanism::Ecdsa { digest: Some(DigestAlgorithm::Sha256) }),
        0x1045 => Ok(Mechanism::Ecdsa { digest: Some(DigestAlgorithm::Sha384) }),
        0x1046 => Ok(Mechanism::Ecdsa { digest: Some(DigestAlgorithm::Sha512) }),
        0x1081 => Ok(Mechanism::Aes { mode: AesMode::Ecb, key_size: 128 }),
        0x1082 => Ok(Mechanism::Aes { mode: AesMode::Cbc, key_size: 128 }),
        0x1086 => Ok(Mechanism::Aes { mode: AesMode::Ctr, key_size: 128 }),
        0x1087 => Ok(Mechanism::Aes { mode: AesMode::Gcm, key_size: 128 }),
        0x221 => Ok(Mechanism::Hmac { hash: DigestAlgorithm::Sha1 }),
        0x256 => Ok(Mechanism::Hmac { hash: DigestAlgorithm::Sha224 }),
        0x251 => Ok(Mechanism::Hmac { hash: DigestAlgorithm::Sha256 }),
        0x261 => Ok(Mechanism::Hmac { hash: DigestAlgorithm::Sha384 }),
        0x271 => Ok(Mechanism::Hmac { hash: DigestAlgorithm::Sha512 }),
        _ => {
            let hex = u32_to_hex8(ck_mechanism);
            Err(BackendError::UnsupportedMechanism(
                String::from_str("Unsupported PKCS#11 mechanism: ").concat(hex.as_str()),
            ))
        },
    }
}

/// The PKCS#11 mechanism code of a backend mechanism; `CKM_VENDOR_DEFINED`
/// (0x80000000) for the mechanisms that have none.
pub open spec fn mechanism_code(m: Mechanism) -> u32 {
    match m {
        Mechanism::Digest(DigestAlgorithm::Sha1) => 0x220,
        Mechanism::Digest(DigestAlgorithm::Sha224) => 0x255,
        Mechanism::Digest(DigestAlgorithm::Sha256) => 0x250,
        Mechanism::Digest(DigestAlgorithm::Sha384) => 0x260,
        Mechanism::Digest(DigestAlgorithm::Sha512) => 0x270,
        Mechanism::RsaPkcs1 { digest: None } => 0x1,
        Mechanism::RsaPkcs1 { digest: Some(DigestAlgorithm::Sha1) } => 0x6,
        Mechanism::RsaPkcs1 { digest: Some(DigestAlgorithm::Sha224) } => 0x46,
        Mechanism::RsaPkcs1 { digest: Some(DigestAlgorithm::Sha256) } => 0x40,
        Mechanism::RsaPkcs1 { digest: Some(DigestAlgorithm::Sha384) } => 0x41,
        Mechanism::RsaPkcs1 { digest: Some(DigestAlgorithm::Sha512) } => 0x42,
        Mechanism::RsaPkcs1Pss { .. } => 0xD,
        Mechanism::RsaOaep { .. } => 0x9,
        Mechanism::RsaX509 => 0x3,
        Mechanism::Ecdsa { digest: None } => 0x1041,
        Mechanism::Ecdsa { digest: Some(DigestAlgorithm::Sha1) } => 0x1042,
        Mechanism::Ecdsa { digest: Some(DigestAlgorithm::Sha224) } => 0x1043,
        Mechanism::Ecdsa { digest: Some(DigestAlgorithm::Sha256) } => 0x1044,
        Mechanism::Ecdsa { digest: Some(DigestAlgorithm::Sha384) } => 0x1045,
        Mechanism::Ecdsa { digest: Some(DigestAlgorithm::Sha512) } => 0x1046,
        Mechanism::EdDsa => 0x1057,
        Mechanism::Aes { mode: AesMode::Ecb, .. } => 0x1081,
        Mechanism::Aes { mode: AesMode::Cbc, .. } => 0x1082,
        Mechanism::Aes { mode: AesMode::Ctr, .. } => 0x1086,
        Mechanism::Aes { mode: AesMode::Gcm, .. } => 0x1087,
        Mechanism::Aes { mode: AesMode::Ccm, .. } => 0x1088,
        Mechanism::ChaCha20 => 0x4004,
        Mechanism::ChaCha20Poly1305 => 0x4005,
        Mechanism::Hmac { hash: DigestAlgorithm::Sha1 } => 0x221,
        Mechanism::Hmac { hash: DigestAlgorithm::Sha224 } => 0x256,
        Mechanism::Hmac { hash: DigestAlgorithm::Sha256 } => 0x251,
        Mechanism::Hmac { hash: DigestAlgorithm::Sha384 } => 0x261,
        Mechanism::Hmac { hash: DigestAlgorithm::Sha512 } => 0x271,
        Mechanism::Kdf { .. } => 0x3B0,
        Mechanism::Ecdh => 0x1050,
        Mechanism::X25519 => 0x4006,
        _ => 0x8000_0000,
    }
}

/// Convert a backend mechanism to its PKCS#11 mechanism code.
pub fn backend_mechanism_to_pkcs11(mechanism: &Mechanism) -> (r: u32)
    ensures
        r == mechanism_code(*mechanism),
{
    match mechanism {
        Mechanism::Digest(DigestAlgorithm::Sha1) => 0x220,
        Mechanism::Digest(DigestAlgorithm::Sha224) => 0x255,
        Mechanism::Digest(DigestAlgorithm::Sha256) => 0x250,
        Mechanism::Digest(DigestAlgorithm::Sha384) => 0x260,
        Mechanism::Digest(DigestAlgorithm::Sha512) => 0x270,
        Mechanism::RsaPkcs1 { digest: None } => 0x1,
        Mechanism::RsaPkcs1 { digest: Some(DigestAlgorithm::Sha1) } => 0x6,
        Mechanism::RsaPkcs1 { digest: Some(DigestAlgorithm::Sha224) } => 0x46,
        Mechanism::RsaPkcs1 { digest: Some(DigestAlgorithm::Sha256) } => 0x40,
        Mechanism::RsaPkcs1 { digest: Some(DigestAlgorithm::Sha384) } => 0x41,
        Mechanism::RsaPkcs1 { digest: Some(DigestAlgorithm::Sha512) } => 0x42,
        Mechanism::RsaPkcs1Pss { .. } => 0xD,
        Mechanism::RsaOaep { .. } => 0x9,
        Mechanism::RsaX509 => 0x3,
        Mechanism::Ecdsa { digest: None } => 0x1041,
        Mechanism::Ecdsa { digest: Some(DigestAlgorithm::Sha1) } => 0x1042,
        Mechanism::Ecdsa { digest: Some(DigestAlgorithm::Sha224) } => 0x1043,
        Mechanism::Ecdsa { digest: Some(DigestAlgorithm::Sha256) } => 0x1044,
        Mechanism::Ecdsa { digest: Some(DigestAlgorithm::Sha384) } => 0x1045,
        Mechanism::Ecdsa { digest: Some(DigestAlgorithm::Sha512) } => 0x1046,
        Mechanism::EdDsa => 0x1057,
        Mechanism::Aes { mode: AesMode::Ecb, .. } => 0x1081,
        Mechanism::Aes { mode: AesMode::Cbc, .. } => 0x1082,
        Mechanism::Aes { mode: AesMode::Ctr, .. } => 0x1086,
        Mechanism::Aes { mode: AesMode::Gcm, .. } => 0x1087,
        Mechanism::Aes { mode: AesMode::Ccm, .. } => 0x1088,
        Mechanism::ChaCha20 => 0x4004,
        Mechanism::ChaCha20Poly1305 => 0x4005,
        Mechanism::Hmac { hash: DigestAlgorithm::Sha1 } => 0x221,
        Mechanism::Hmac { hash: DigestAlgorithm::Sha224 } => 0x256,
        Mechanism::Hmac { hash: DigestAlgorithm::Sha256 } => 0x251,
        Mechanism::Hmac { hash: DigestAlgorithm::Sha384 } => 0x261,
        Mechanism::Hmac { hash: DigestAlgorithm::Sha512 } => 0x271,
        Mechanism::Kdf { .. } => 0x3B0,
        Mechanism::Ecdh => 0x1050,
        Mechanism::X25519 => 0x4006,
        _ => 0x8000_0000,
    }
}

/// The backend algorithm of a PKCS#11 key type and size, if supported.
pub open spec fn p11_key_algorithm(key_type: u32, bits: nat) -> Option<KeyAlgorithm> {
    if key_type == 0x0 {
        if bits == 1024 {
            Some(KeyAlgorithm::Rsa1024)
        } else if bits == 2048 {
            Some(KeyAlgorithm::Rsa2048)
        } else if bits == 3072 {
            Some(KeyAlgorithm::Rsa3072)
        } else if bits == 4096 {
            Some(KeyAlgorithm::Rsa4096)
        } else if bits == 8192 {
            Some(KeyAlgorithm::Rsa8192)
        } else {
            None
        }
    } else if key_type == 0x3 {
        if bits == 224 {
            Some(KeyAlgorithm::EcdsaP224)
        } else if bits == 256 {
            Some(KeyAlgorithm::EcdsaP256)
        } else if bits == 384 {
            Some(KeyAlgorithm::EcdsaP384)
        } else if bits == 521 {
            Some(KeyAlgorithm::EcdsaP521)
        } else {
            None
        }
    } else if key_type == 0x1F {
        if bits == 128 {
            Some(KeyAlgorithm::Aes128)
        } else if bits == 192 {
            Some(KeyAlgorithm::Aes192)
        } else if bits == 256 {
            Some(KeyAlgorithm::Aes256)
        } else {
            None
        }
    } else if key_type == 0x10 {
        if bits == 256 {
            Some(KeyAlgorithm::ChaCha20)
        } else {
            None
        }
    } else {
        None
    }
}

/// The message for a key type and size that no algorithm matches.
pub open spec fn unsupported_key_size_msg(key_type: u32, bits: nat) -> Seq<char> {
    if key_type == 0x0 {
        "Unsupported RSA key size: "@ + decimal(bits) + " bits"@
    } else if key_type == 0x3 {
        "Unsupported EC key size: "@ + decimal(bits) + " bits"@
    } else if key_type == 0x1F {
        "Unsupported AES key size: "@ + decimal(bits) + " bits"@
    } else if key_type == 0x10 {
        "Unsupported generic secret key size: "@ + decimal(bits) + " bits"@
    } else {
        unknown_key_type_msg(key_type)
    }
}

/// A size message: `prefix`, the decimal size, and " bits".
fn size_msg(prefix: &str, bits: usize) -> (s: String)
    ensures
        s@ == prefix@ + decimal(bits as nat) + " bits"@,
{
    let n = usize_to_decimal(bits);
    let mut s = String::from_str(prefix);
    s.append(n.as_str());
    s.append(" bits");
    s
}

/// Convert a PKCS#11 key type and key size in bits to a backend algorithm.
pub fn pkcs11_key_size_to_algorithm(key_type: u32, key_size_bits: usize) -> (r: BackendResult<KeyAlgorithm>)
    ensures
        p11_key_algorithm(key_type, key_size_bits as nat) matches Some(a) ==> (r matches Ok(b) && b
            == a),
        p11_key_algorithm(key_type, key_size_bits as nat) is None ==> (r matches Err(
            BackendError::UnsupportedAlgorithm(s),
        ) && s@ == unsupported_key_size_msg(key_type, key_size_bits as nat)),
{
    match key_type {
        0x0 => match key_size_bits {
            1024 => Ok(KeyAlgorithm::Rsa1024),
            2048 => Ok(KeyAlgorithm::Rsa2048),
            3072 => Ok(KeyAlgorithm::Rsa3072),
            4096 => Ok(KeyAlgorithm::Rsa4096),
            8192 => Ok(KeyAlgorithm::Rsa8192),
            _ => Err(BackendError::UnsupportedAlgorithm(size_msg("Unsupported RSA key size: ", key_size_bits))),
        },
        0x3 => match key_size_bits {
            224 => Ok(KeyAlgorithm::EcdsaP224),
            256 => Ok(KeyAlgorithm::EcdsaP256),
            384 => Ok(KeyAlgorithm::EcdsaP384),
            521 => Ok(KeyAlgorithm::EcdsaP521),
            _ => Err(BackendError::UnsupportedAlgorithm(size_msg("Unsupported EC key size: ", key_size_bits))),
        },
        0x1F => match key_size_bits {
            128 => Ok(KeyAlgorithm::Aes128),
            192 => Ok(KeyAlgorithm::Aes192),
            256 => Ok(KeyAlgorithm::Aes256),
            _ => Err(BackendError::UnsupportedAlgorithm(size_msg("Unsupported AES key size: ", key_size_bits))),
        },
        0x10 => match key_size_bits {
            256 => Ok(KeyAlgorithm::ChaCha20),
            _ => Err(BackendError::UnsupportedAlgorithm(
                size_msg("Unsupported generic secret key size: ", key_size_bits),
            )),
        },
        _ => {
            let hex = u32_to_hex8(key_type);
            Err(BackendError::UnsupportedAlgorithm(
                String::from_str("Unsupported PKCS#11 key type: ").concat(hex.as_str()),
            ))
        },
    }
}

/// The PKCS#11 return value of each backend error.
pub open spec fn error_code(e: BackendError) -> u32 {
    match e {
        BackendError::General(_) => 0x05, // CKR_GENERAL_ERROR
        BackendError::UnsupportedAlgorithm(_) => 0x70, // CKR_MECHANISM_INVALID
        BackendError::UnsupportedMechanism(_) => 0x70, // CKR_MECHANISM_INVALID
        BackendError::UnsupportedOperation(_) => 0x54, // CKR_FUNCTION_NOT_SUPPORTED
        BackendError::KeyGeneration(_) => 0x68, // CKR_KEY_FUNCTION_NOT_PERMITTED
        BackendError::KeyDerivation(_) => 0x68, // CKR_KEY_FUNCTION_NOT_PERMITTED
        BackendError::InvalidKeyData(_) => 0x62, // CKR_KEY_SIZE_RANGE
        BackendError::InvalidKey(_) => 0x60, // CKR_KEY_HANDLE_INVALID
        BackendError::KeyNotExtractable => 0x69, // CKR_KEY_NOT_WRAPPABLE
        BackendError::KeySensitive => 0x6A, // CKR_KEY_UNEXTRACTABLE
        BackendError::InvalidCertificate(_) => 0x13, // CKR_ATTRIBUTE_VALUE_INVALID
        BackendError::DigestOperation(_) => 0x05, // CKR_GENERAL_ERROR
        BackendError::DigestUpdate(_) => 0x05, // CKR_GENERAL_ERROR
        BackendError::DigestFinalize(_) => 0x05, // CKR_GENERAL_ERROR
        BackendError::SignOperation(_) => 0x05, // CKR_GENERAL_ERROR
        BackendError::VerifyOperation(_) => 0xC0, // CKR_SIGNATURE_INVALID
        BackendError::EncryptOperation(_) => 0x05, // CKR_GENERAL_ERROR
        BackendError::DecryptOperation(_) => 0x05, // CKR_GENERAL_ERROR
        BackendError::RandomGeneration(_) => 0x05, // CKR_GENERAL_ERROR
        BackendError::ContextFinalized => 0x91, // CKR_OPERATION_NOT_INITIALIZED
        BackendError::OperationActive => 0x90, // CKR_OPERATION_ACTIVE
        BackendError::InvalidState(_) => 0x05, // CKR_GENERAL_ERROR
        BackendError::InvalidParameters(_) => 0x07, // CKR_ARGUMENTS_BAD
        BackendError::BufferTooSmall { .. } => 0x150, // CKR_BUFFER_TOO_SMALL
        BackendError::InvalidDataLength(_) => 0x21, // CKR_DATA_LEN_RANGE
        BackendError::ReadOnlyAttribute(_) => 0x10, // CKR_ATTRIBUTE_READ_ONLY
        BackendError::InitializationFailed(_) => 0x05, // CKR_GENERAL_ERROR
        BackendError::NotInitialized => 0x190, // CKR_CRYPTOKI_NOT_INITIALIZED
        BackendError::HardwareError(_) => 0x30, // CKR_DEVICE_ERROR
        BackendError::IoError(_) => 0x30, // CKR_DEVICE_ERROR
        BackendError::Timeout => 0x05, // CKR_GENERAL_ERROR
        BackendError::OutOfMemory => 0x02, // CKR_HOST_MEMORY
        BackendError::Internal(_) => 0x05, // CKR_GENERAL_ERROR
        BackendError::MockError(_) => 0x05, // CKR_GENERAL_ERROR
    }
}

/// Convert a backend error to a PKCS#11 return value.
pub fn backend_error_to_pkcs11(error: &BackendError) -> (r: u32)
    ensures
        r == error_code(*error),
{
    match error {
        BackendError::General(_) => 0x05, // CKR_GENERAL_ERROR
        BackendError::UnsupportedAlgorithm(_) => 0x70, // CKR_MECHANISM_INVALID
        BackendError::UnsupportedMechanism(_) => 0x70, // CKR_MECHANISM_INVALID
        BackendError::UnsupportedOperation(_) => 0x54, // CKR_FUNCTION_NOT_SUPPORTED
        BackendError::KeyGeneration(_) => 0x68, // CKR_KEY_FUNCTION_NOT_PERMITTED
        BackendError::KeyDerivation(_) => 0x68, // CKR_KEY_FUNCTION_NOT_PERMITTED
        BackendError::InvalidKeyData(_) => 0x62, // CKR_KEY_SIZE_RANGE
        BackendError::InvalidKey(_) => 0x60, // CKR_KEY_HANDLE_INVALID
        BackendError::KeyNotExtractable => 0x69, // CKR_KEY_NOT_WRAPPABLE
        BackendError::KeySensitive => 0x6A, // CKR_KEY_UNEXTRACTABLE
        BackendError::InvalidCertificate(_) => 0x13, // CKR_ATTRIBUTE_VALUE_INVALID
        BackendError::DigestOperation(_) => 0x05, // CKR_GENERAL_ERROR
        BackendError::DigestUpdate(_) => 0x05, // CKR_GENERAL_ERROR
        BackendError::DigestFinalize(_) => 0x05, // CKR_GENERAL_ERROR
        BackendError::SignOperation(_) => 0x05, // CKR_GENERAL_ERROR
        BackendError::VerifyOperation(_) => 0xC0, // CKR_SIGNATURE_INVALID
        BackendError::EncryptOperation(_) => 0x05, // CKR_GENERAL_ERROR
        BackendError::DecryptOperation(_) => 0x05, // CKR_GENERAL_ERROR
        BackendError::RandomGeneration(_) => 0x05, // CKR_GENERAL_ERROR
        BackendError::ContextFinalized => 0x91, // CKR_OPERATION_NOT_INITIALIZED
        BackendError::OperationActive => 0x90, // CKR_OPERATION_ACTIVE
        BackendError::InvalidState(_) => 0x05, // CKR_GENERAL_ERROR
        BackendError::InvalidParameters(_) => 0x07, // CKR_ARGUMENTS_BAD
        BackendError::BufferTooSmall { .. } => 0x150, // CKR_BUFFER_TOO_SMALL
        BackendError::InvalidDataLength(_) => 0x21, // CKR_DATA_LEN_RANGE
        BackendError::ReadOnlyAttribute(_) => 0x10, // CKR_ATTRIBUTE_READ_ONLY
        BackendError::InitializationFailed(_) => 0x05, // CKR_GENERAL_ERROR
        BackendError::NotInitialized => 0x190, // CKR_CRYPTOKI_NOT_INITIALIZED
        BackendError::HardwareError(_) => 0x30, // CKR_DEVICE_ERROR
        BackendError::IoError(_) => 0x30, // CKR_DEVICE_ERROR
        BackendError::Timeout => 0x05, // CKR_GENERAL_ERROR
        BackendError::OutOfMemory => 0x02, // CKR_HOST_MEMORY
        BackendError::Internal(_) => 0x05, // CKR_GENERAL_ERROR
        BackendError::MockError(_) => 0x05, // CKR_GENERAL_ERROR
    }
}

/// Lower-case hexadecimal digits of each byte, two per byte.
pub open spec fn hex_of(b: Seq<u8>) -> Seq<char>
    decreases b.len(),
{
    if b.len() == 0 {
        seq![]
    } else {
        hex_of(b.drop_last()) + seq![digit_char((b.last() / 16) as nat), digit_char((b.last() % 16) as nat)]
    }
}

/// Convert bytes to a lower-case hexadecimal string.
pub fn bytes_to_hex(bytes: &[u8]) -> (r: String)
    ensures
        r@ == hex_of(bytes@),
{
    let mut s = String::new();
    let mut i: usize = 0;
    while i < bytes.len()
        invariant
            0 <= i <= bytes@.len(),
            s@ == hex_of(bytes@.subrange(0, i as int)),
        decreases bytes@.len() - i,
    {
        let b = bytes[i];
        s.append(digit_str(b / 16));
        s.append(digit_str(b % 16));
        proof {
            assert(bytes@.subrange(0, i + 1).drop_last() =~= bytes@.subrange(0, i as int));
        }
        i = i + 1;
    }
    proof {
        assert(bytes@.subrange(0, bytes@.len() as int) =~= bytes@);
    }
    s
}

/// The value of an ASCII hexadecimal digit, either case.
pub open spec fn hex_digit_value(c: u8) -> Option<u8> {
    if 0x30 <= c <= 0x39 {
        Some((c - 0x30) as u8)
    } else if 0x61 <= c <= 0x66 {
        Some((c - 0x61 + 10) as u8)
    } else if 0x41 <= c <= 0x46 {
        Some((c - 0x41 + 10) as u8)
    } else {
        None
    }
}

/// Whether two bytes form valid UTF-8 on their own: two ASCII bytes, or a
/// two-byte sequence (lead byte 0xC2..0xDF, continuation byte 0x80..0xBF).
pub open spec fn pair_is_utf8(a: u8, b: u8) -> bool {
    (a < 0x80 && b < 0x80) || (0xC2 <= a <= 0xDF && 0x80 <= b <= 0xBF)
}

/// The byte that a two-character chunk of hexadecimal digits stands for.
pub open spec fn pair_value(a: u8, b: u8) -> Option<u8> {
    match (hex_digit_value(a), hex_digit_value(b)) {
        (Some(x), Some(y)) => Some((x * 16 + y) as u8),
        _ => None,
    }
}

/// Decode consecutive two-byte chunks, stopping at the first bad chunk with
/// its message.
pub open spec fn decode_pairs(b: Seq<u8>) -> Result<Seq<u8>, Seq<char>>
    decreases b.len(),
{
    if b.len() < 2 {
        Ok(seq![])
    } else if !pair_is_utf8(b[0], b[1]) {
        Err("Invalid hex string"@)
    } else {
        match pair_value(b[0], b[1]) {
            None => Err("Invalid hex character"@),
            Some(v) => match decode_pairs(b.subrange(2, b.len() as int)) {
                Ok(rest) => Ok(seq![v] + rest),
                Err(e) => Err(e),
            },
        }
    }
}

/// Decoding of the bytes of a hexadecimal string: the bytes, or the message
/// of the first fault.
pub open spec fn hex_decode(b: Seq<u8>) -> Result<Seq<u8>, Seq<char>> {
    if b.len() % 2 != 0 {
        Err("Hex string must have even length"@)
    } else {
        decode_pairs(b)
    }
}

/// `out` followed by what `r` decodes, or `r`'s fault.
pub open spec fn prefix_result(out: Seq<u8>, r: Result<Seq<u8>, Seq<char>>) -> Result<Seq<u8>, Seq<char>> {
    match r {
        Ok(rest) => Ok(out + rest),
        Err(e) => Err(e),
    }
}

fn hex_digit(c: u8) -> (r: Option<u8>)
    ensures
        r == hex_digit_value(c),
{
    if 0x30 <= c && c <= 0x39 {
        Some(c - 0x30)
    } else if 0x61 <= c && c <= 0x66 {
        Some(c - 0x61 + 10)
    } else if 0x41 <= c && c <= 0x46 {
        Some(c - 0x41 + 10)
    } else {
        None
    }
}

/// Convert a hexadecimal string to bytes. The string must have even length
/// and consist of hexadecimal digits of either case, each pair giving one
/// byte; every fault is `InvalidParameters`.
pub fn hex_to_bytes(hex: &str) -> (r: BackendResult<Vec<u8>>)
    ensures
        hex_decode(hex.spec_bytes()) matches Ok(v) ==> (r matches Ok(w) && w@ == v),
        hex_decode(hex.spec_bytes()) matches Err(m) ==> (r matches Err(
            BackendError::InvalidParameters(s),
        ) && s@ == m),
{
    let bytes = hex.as_bytes();
    if bytes.len() % 2 != 0 {
        return Err(BackendError::InvalidParameters(String::from_str("Hex string must have even length")));
    }
    let mut out: Vec<u8> = Vec::new();
    let mut i: usize = 0;
    proof {
        assert(bytes@.subrange(0, bytes@.len() as int) =~= bytes@);
        match decode_pairs(bytes@) {
            Ok(rest) => {
                assert(Seq::<u8>::empty() + rest =~= rest);
            },
            Err(e) => {},
        }
    }
    while i < bytes.len()
        invariant
            bytes@ == hex.spec_bytes(),
            bytes@.len() % 2 == 0,
            i % 2 == 0,
            0 <= i <= bytes@.len(),
            decode_pairs(bytes@) == prefix_result(
                out@,
                decode_pairs(bytes@.subrange(i as int, bytes@.len() as int)),
            ),
        decreases bytes@.len() - i,
    {
        let a = bytes[i];
        let b = bytes[i + 1];
        let ghost tail = bytes@.subrange(i as int, bytes@.len() as int);
        proof {
            assert(tail[0] == a && tail[1] == b);
            assert(tail.subrange(2, tail.len() as int) =~= bytes@.subrange(i + 2, bytes@.len() as int));
        }
        let utf8 = (a < 0x80 && b < 0x80) || (0xC2 <= a && a <= 0xDF && 0x80 <= b && b <= 0xBF);
        if !utf8 {
            return Err(BackendError::InvalidParameters(String::from_str("Invalid hex string")));
        }
        let v = match (hex_digit(a), hex_digit(b)) {
            (Some(x), Some(y)) => Some(x * 16 + y),
            _ => None,
        };
        match v {
            None => {
                return Err(BackendError::InvalidParameters(String::from_str("Invalid hex character")));
            },
            Some(v) => {
                let ghost before = out@;
                out.push(v);
                proof {
                    assert(out@ == before + seq![v]);
                    match decode_pairs(bytes@.subrange(i + 2, bytes@.len() as int)) {
                        Ok(rest) => {
                            assert(before + (seq![v] + rest) =~= out@ + rest);
                        },
                        Err(e) => {},
                    }
                }
            },
        }
        i = i + 2;
    }
    proof {
        assert(bytes@.subrange(bytes@.len() as int, bytes@.len() as int) =~= Seq::<u8>::empty());
        assert(out@ + Seq::<u8>::empty() =~= out@);
    }
    Ok(out)
}

/// Whether the two byte strings are equal; the comparison reads every byte
/// when the lengths agree.
pub fn constant_time_eq(a: &[u8], b: &[u8]) -> (r: bool)
    ensures
        r == (a@ == b@),
{
    if a.len() != b.len() {
        return false;
    }
    let mut result: u8 = 0;
    let mut i: usize = 0;
    while i < a.len()
        invariant
            a@.len() == b@.len(),
            0 <= i <= a@.len(),
            (result == 0) == (forall|j: int| 0 <= j < i ==> a@[j] == b@[j]),
        decreases a@.len() - i,
    {
        let x = a[i];
        let y = b[i];
        let old_result = result;
        result = result | (x ^ y);
        proof {
            assert((old_result | (x ^ y)) == 0 <==> (old_result == 0 && x == y)) by (bit_vector);
            if result == 0 {
                assert forall|j: int| 0 <= j < i + 1 implies a@[j] == b@[j] by {
                    if j < i {
                    } else {
                        assert(a@[j] == x && b@[j] == y);
                    }
                }
            }
        }
        i = i + 1;
    }
    proof {
        if result == 0 {
            assert(a@ =~= b@);
        }
    }
    result == 0
}

/// Overwrite every byte of `data` with zero.
pub fn secure_zero(data: &mut [u8])
    ensures
        final(data)@.len() == old(data)@.len(),
        forall|i: int| 0 <= i < final(data)@.len() ==> #[trigger] final(data)@[i] == 0,
{
    let mut i: usize = 0;
    while i < data.len()
        invariant
            data@.len() == old(data)@.len(),
            0 <= i <= data@.len(),
            forall|j: int| 0 <= j < i ==> #[trigger] data@[j] == 0,
        decreases data@.len() - i,
    {
        data[i] = 0;
        i = i + 1;
    }
}

/// The number of padding bytes that PKCS#7 adds to `len` bytes.
pub open spec fn pad_len(len: nat, block_size: nat) -> nat {
    (block_size - len % block_size) as nat
}

/// PKCS#7 padding of `data`: `p` bytes of value `p` (modulo 256), where `p`
/// is the padding length.
pub open spec fn pkcs7_padded(data: Seq<u8>, block_size: nat) -> Seq<u8> {
    let p = pad_len(data.len(), block_size);
    data + Seq::new(p, |i: int| (p % 256) as u8)
}

/// Pad `data` to a multiple of `block_size` with PKCS#7 padding; a full
/// block of padding is added when `data` is already aligned.
pub fn pkcs7_pad(data: &[u8], block_size: usize) -> (r: Vec<u8>)
    requires
        block_size > 0,
        data@.len() + block_size <= usize::MAX,
    ensures
        r@ == pkcs7_padded(data@, block_size as nat),
{
    let padding_len = block_size - (data.len() % block_size);
    let fill: u8 = (padding_len % 256) as u8;
    let mut padded: Vec<u8> = Vec::with_capacity(data.len() + padding_len);
    let mut i: usize = 0;
    while i < data.len()
        invariant
            0 <= i <= data@.len(),
            padded@ == data@.subrange(0, i as int),
        decreases data@.len() - i,
    {
        padded.push(data[i]);
        proof {
            assert(data@.subrange(0, i + 1) =~= data@.subrange(0, i as int).push(data@[i as int]));
        }
        i = i + 1;
    }
    let mut k: usize = 0;
    while k < padding_len
        invariant
            0 <= k <= padding_len,
            padding_len == pad_len(data@.len(), block_size as nat),
            fill == padding_len % 256,
            padded@ == data@ + Seq::new(k as nat, |j: int| fill),
        decreases padding_len - k,
    {
        padded.push(fill);
        proof {
            assert(data@ + Seq::new((k + 1) as nat, |j: int| fill) =~= (data@ + Seq::new(
                k as nat,
                |j: int| fill,
            )).push(fill));
        }
        k = k + 1;
    }
    proof {
        assert(data@.subrange(0, data@.len() as int) =~= data@);
        assert(padded@ =~= pkcs7_padded(data@, block_size as nat));
    }
    padded
}

/// The outcome of removing PKCS#7 padding: the unpadded bytes, or the message
/// of the fault.
pub open spec fn pkcs7_unpadded(data: Seq<u8>) -> Result<Seq<u8>, Seq<char>> {
    if data.len() == 0 {
        Err("Empty data"@)
    } else {
        let p = data.last() as nat;
        if p == 0 || p > data.len() {
            Err("Invalid padding"@)
        } else if exists|i: int| data.len() - p <= i < data.len() && data[i] != data.last() {
            Err("Invalid padding"@)
        } else {
            Ok(data.subrange(0, data.len() - p))
        }
    }
}

/// Remove PKCS#7 padding; every fault is `InvalidDataLength`.
pub fn pkcs7_unpad(data: &[u8]) -> (r: BackendResult<Vec<u8>>)
    ensures
        pkcs7_unpadded(data@) matches Ok(v) ==> (r matches Ok(w) && w@ == v),
        pkcs7_unpadded(data@) matches Err(m) ==> (r matches Err(BackendError::InvalidDataLength(s))
            && s@ == m),
{
    if data.len() == 0 {
        return Err(BackendError::InvalidDataLength(String::from_str("Empty data")));
    }
    let last = data[data.len() - 1];
    let padding_len = last as usize;
    if padding_len == 0 || padding_len > data.len() {
        return Err(BackendError::InvalidDataLength(String::from_str("Invalid padding")));
    }
    let mut i: usize = data.len() - padding_len;
    while i < data.len()
        invariant
            last == data@.last(),
            padding_len == last as usize,
            0 < padding_len <= data@.len(),
            data@.len() - padding_len <= i <= data@.len(),
            forall|j: int| data@.len() - padding_len <= j < i ==> data@[j] == last,
        decreases data@.len() - i,
    {
        if data[i] != last {
            return Err(BackendError::InvalidDataLength(String::from_str("Invalid padding")));
        }
        i = i + 1;
    }
    let mut out: Vec<u8> = Vec::new();
    let mut k: usize = 0;
    let end = data.len() - padding_len;
    while k < end
        invariant
            end <= data@.len(),
            0 <= k <= end,
            out@ == data@.subrange(0, k as int),
        decreases end - k,
    {
        out.push(data[k]);
        proof {
            assert(data@.subrange(0, k + 1) =~= data@.subrange(0, k as int).push(data@[k as int]));
        }
        k = k + 1;
    }
    Ok(out)
}

/// Decoding the hexadecimal encoding of any bytes gives the bytes back.
pub proof fn lemma_hex_round_trip(b: Seq<u8>)
    ensures
        is_ascii_chars(hex_of(b)),
        hex_decode(encode_utf8(hex_of(b))) == Ok::<Seq<u8>, Seq<char>>(b),
{
    lemma_hex_bytes(b);
    is_ascii_chars_encode_utf8(hex_of(b));
    let bytes = encode_utf8(hex_of(b));
    assert(bytes =~= hex_ascii(b));
    lemma_decode_hex_ascii(b);
}

/// Decoding a string that holds the hexadecimal encoding of some bytes gives
/// the bytes back: what `hex_to_bytes` gives for what `bytes_to_hex` made.
pub proof fn lemma_hex_string_round_trip(b: Seq<u8>, s: &str)
    requires
        s@ == hex_of(b),
    ensures
        hex_decode(s.spec_bytes()) == Ok::<Seq<u8>, Seq<char>>(b),
{
    lemma_hex_round_trip(b);
}

/// The ASCII bytes of `hex_of(b)`.
pub open spec fn hex_ascii(b: Seq<u8>) -> Seq<u8>
    decreases b.len(),
{
    if b.len() == 0 {
        seq![]
    } else {
        hex_ascii(b.drop_last()) + seq![
            digit_char((b.last() / 16) as nat) as u8,
            digit_char((b.last() % 16) as nat) as u8,
        ]
    }
}

proof fn lemma_hex_bytes(b: Seq<u8>)
    ensures
        hex_of(b).len() == 2 * b.len(),
        hex_ascii(b).len() == 2 * b.len(),
        is_ascii_chars(hex_of(b)),
        forall|i: int| 0 <= i < hex_of(b).len() ==> #[trigger] hex_of(b)[i] as u8 == hex_ascii(b)[i],
    decreases b.len(),
{
    if b.len() > 0 {
        lemma_hex_bytes(b.drop_last());
        let p = b.drop_last();
        let d0 = (b.last() / 16) as nat;
        let d1 = (b.last() % 16) as nat;
        assert forall|i: int| 0 <= i < hex_of(b).len() implies '\0' <= #[trigger] hex_of(b)[i] <= '\u{7f}' by {
            if i < hex_of(p).len() {
                assert(hex_of(b)[i] == hex_of(p)[i]);
            }
        }
        assert forall|i: int| 0 <= i < hex_of(b).len() implies #[trigger] hex_of(b)[i] as u8 == hex_ascii(b)[i] by {
            if i < hex_of(p).len() {
                assert(hex_of(b)[i] == hex_of(p)[i]);
                assert(hex_ascii(b)[i] == hex_ascii(p)[i]);
            }
        }
    }
}

/// Each pair of `hex_ascii(b)` decodes to its byte.
proof fn lemma_decode_hex_ascii(b: Seq<u8>)
    ensures
        hex_decode(hex_ascii(b)) == Ok::<Seq<u8>, Seq<char>>(b),
    decreases b.len(),
{
    lemma_hex_bytes(b);
    lemma_decode_pairs_front(b);
}

/// `hex_ascii(b)` starts with the two digits of `b[0]`, followed by
/// `hex_ascii` of the rest.
proof fn lemma_hex_ascii_front(b: Seq<u8>)
    requires
        b.len() > 0,
    ensures
        hex_ascii(b) == seq![
            digit_char((b[0] / 16) as nat) as u8,
            digit_char((b[0] % 16) as nat) as u8,
        ] + hex_ascii(b.drop_first()),
    decreases b.len(),
{
    if b.len() == 1 {
        assert(b.drop_last() =~= Seq::<u8>::empty());
        assert(b.drop_first() =~= Seq::<u8>::empty());
        assert(hex_ascii(b.drop_first()) =~= Seq::<u8>::empty());
    } else {
        lemma_hex_ascii_front(b.drop_last());
        assert(b.drop_last().drop_first() =~= b.drop_first().drop_last());
        assert(b.drop_first().last() == b.last());
        assert(b.drop_last()[0] == b[0]);
    }
}

proof fn lemma_digit_pair(x: u8)
    ensures
        pair_is_utf8(digit_char((x / 16) as nat) as u8, digit_char((x % 16) as nat) as u8),
        pair_value(digit_char((x / 16) as nat) as u8, digit_char((x % 16) as nat) as u8) == Some(x),
{
    let hi = (x / 16) as nat;
    let lo = (x % 16) as nat;
    assert(hi < 16 && lo < 16);
    assert(x == hi * 16 + lo);
}

proof fn lemma_decode_pairs_front(b: Seq<u8>)
    ensures
        decode_pairs(hex_ascii(b)) == Ok::<Seq<u8>, Seq<char>>(b),
        hex_ascii(b).len() % 2 == 0,
    decreases b.len(),
{
    lemma_hex_bytes(b);
    if b.len() == 0 {
        assert(b =~= Seq::<u8>::empty());
    } else {
        lemma_hex_ascii_front(b);
        lemma_decode_pairs_front(b.drop_first());
        lemma_digit_pair(b[0]);
        let h = hex_ascii(b);
        let a0 = digit_char((b[0] / 16) as nat) as u8;
        let a1 = digit_char((b[0] % 16) as nat) as u8;
        assert(h[0] == a0 && h[1] == a1);
        assert(h.subrange(2, h.len() as int) =~= hex_ascii(b.drop_first()));
        assert(seq![b[0]] + b.drop_first() =~= b);
        assert(decode_pairs(h) == Ok::<Seq<u8>, Seq<char>>(seq![b[0]] + b.drop_first()));
    }
}

/// Removing the PKCS#7 padding of any data gives the data back, for every
/// block size from 1 to 255 (a padding length must fit in one byte): what
/// `pkcs7_unpad` gives for what `pkcs7_pad` made is the data.
pub proof fn lemma_pkcs7_round_trip(data: Seq<u8>, block_size: nat)
    requires
        0 < block_size < 256,
    ensures
        pkcs7_unpadded(pkcs7_padded(data, block_size)) == Ok::<Seq<u8>, Seq<char>>(data),
{
    let p = pad_len(data.len(), block_size);
    let padded = pkcs7_padded(data, block_size);
    assert(0 <= data.len() % block_size < block_size) by (nonlinear_arith)
        requires
            block_size > 0,
    ;
    assert(1 <= p <= block_size);
    assert(padded.len() == data.len() + p);
    assert(padded.last() == (p % 256) as u8);
    assert((p % 256) as u8 as nat == p);
    assert(!(exists|i: int| padded.len() - p <= i < padded.len() && padded[i] != padded.last()));
    assert(padded.subrange(0, padded.len() - p) =~= data);
}

/// A PKCS#11 mechanism code that decodes names the mechanism whose code it
/// is: decoding then encoding gives the code back.
pub proof fn lemma_mechanism_code_round_trip(code: u32)
    ensures
        p11_mechanism(code) matches Some(m) ==> mechanism_code(m) == code,
{
}

/// A PKCS#11 key type and size that name an algorithm name one of that
/// size; and an RSA, NIST-curve EC, AES or ChaCha20 algorithm, with a key
/// type it can have, is named back by its code and size.
pub proof fn lemma_key_algorithm_round_trip(key_type: u32, bits: nat, t: KeyType, a: KeyAlgorithm)
    ensures
        p11_key_algorithm(key_type, bits) matches Some(b) ==> key_bits(b) == bits,
        ((t is Public || t is Private) && (alg_is_rsa(a) || a is EcdsaP224 || a is EcdsaP256 || a is EcdsaP384
            || a is EcdsaP521)) ==> p11_key_algorithm(backend_key_type_code(t, a), key_bits(a)) == Some(a),
        (t is Secret && (a is Aes128 || a is Aes192 || a is Aes256 || a is ChaCha20)) ==> p11_key_algorithm(
            backend_key_type_code(t, a),
            key_bits(a),
        ) == Some(a),
{
}

/// Each mechanism code decodes to the mechanism the PKCS#11 standard names
/// by it, and to no other: for every code, the decoded signature, HMAC and
/// cipher mechanisms are those of the standard's `CKM_*` constants.
pub proof fn lemma_mechanism_codes_are_standard(c: u32)
    ensures
        (p11_mechanism(c) == Some(Mechanism::RsaPkcs1 { digest: None })) <==> c as u64 == CKM_RSA_PKCS,
        (p11_mechanism(c) == Some(Mechanism::RsaX509)) <==> c as u64 == CKM_RSA_X_509,
        (p11_mechanism(c) == Some(Mechanism::RsaPkcs1 { digest: Some(DigestAlgorithm::Sha1) })) <==> c as u64
            == CKM_SHA1_RSA_PKCS,
        (p11_mechanism(c) == Some(Mechanism::RsaPkcs1 { digest: Some(DigestAlgorithm::Sha224) })) <==> c as u64
            == CKM_SHA224_RSA_PKCS,
        (p11_mechanism(c) == Some(Mechanism::RsaPkcs1 { digest: Some(DigestAlgorithm::Sha256) })) <==> c as u64
            == CKM_SHA256_RSA_PKCS,
        (p11_mechanism(c) == Some(Mechanism::RsaPkcs1 { digest: Some(DigestAlgorithm::Sha384) })) <==> c as u64
            == CKM_SHA384_RSA_PKCS,
        (p11_mechanism(c) == Some(Mechanism::RsaPkcs1 { digest: Some(DigestAlgorithm::Sha512) })) <==> c as u64
            == CKM_SHA512_RSA_PKCS,
        (p11_mechanism(c) matches Some(Mechanism::RsaPkcs1Pss { .. })) <==> c as u64 == CKM_RSA_PKCS_PSS,
        (p11_mechanism(c) matches Some(Mechanism::RsaOaep { .. })) <==> c as u64 == CKM_RSA_PKCS_OAEP,
        (p11_mechanism(c) == Some(Mechanism::Ecdsa { digest: None })) <==> c as u64 == CKM_ECDSA,
        (p11_mechanism(c) == Some(Mechanism::Ecdsa { digest: Some(DigestAlgorithm::Sha1) })) <==> c as u64
            == CKM_ECDSA_SHA1,
        (p11_mechanism(c) == Some(Mechanism::Ecdsa { digest: Some(DigestAlgorithm::Sha224) })) <==> c as u64
            == CKM_ECDSA_SHA224,
        (p11_mechanism(c) == Some(Mechanism::Ecdsa { digest: Some(DigestAlgorithm::Sha256) })) <==> c as u64
            == CKM_ECDSA_SHA256,
        (p11_mechanism(c) == Some(Mechanism::Ecdsa { digest: Some(DigestAlgorithm::Sha384) })) <==> c as u64
            == CKM_ECDSA_SHA384,
        (p11_mechanism(c) == Some(Mechanism::Ecdsa { digest: Some(DigestAlgorithm::Sha512) })) <==> c as u64
            == CKM_ECDSA_SHA512,
        (p11_mechanism(c) == Some(Mechanism::Hmac { hash: DigestAlgorithm::Sha1 })) <==> c as u64 == CKM_SHA_1_HMAC,
        (p11_mechanism(c) == Some(Mechanism::Hmac { hash: DigestAlgorithm::Sha224 })) <==> c as u64
            == CKM_SHA224_HMAC,
        (p11_mechanism(c) == Some(Mechanism::Hmac { hash: DigestAlgorithm::Sha256 })) <==> c as u64
            == CKM_SHA256_HMAC,
        (p11_mechanism(c) == Some(Mechanism::Hmac { hash: DigestAlgorithm::Sha384 })) <==> c as u64
            == CKM_SHA384_HMAC,
        (p11_mechanism(c) == Some(Mechanism::Hmac { hash: DigestAlgorithm::Sha512 })) <==> c as u64
            == CKM_SHA512_HMAC,
        (p11_mechanism(c) == Some(Mechanism::Aes { mode: AesMode::Ecb, key_size: 128 })) <==> c as u64 == CKM_AES_ECB,
        (p11_mechanism(c) == Some(Mechanism::Aes { mode: AesMode::Cbc, key_size: 128 })) <==> c as u64 == CKM_AES_CBC,
        (p11_mechanism(c) == Some(Mechanism::Aes { mode: AesMode::Ctr, key_size: 128 })) <==> c as u64 == CKM_AES_CTR,
        (p11_mechanism(c) == Some(Mechanism::Aes { mode: AesMode::Gcm, key_size: 128 })) <==> c as u64 == CKM_AES_GCM,
{
}

/// Encoding names each signature, HMAC and cipher mechanism by the code the
/// PKCS#11 standard gives it.
pub proof fn lemma_mechanism_encoding_is_standard(d: DigestAlgorithm, m: AesMode, key_size: usize)
    ensures
        mechanism_code(Mechanism::RsaPkcs1 { digest: None }) as u64 == CKM_RSA_PKCS,
        mechanism_code(Mechanism::RsaX509) as u64 == CKM_RSA_X_509,
        mechanism_code(Mechanism::Ecdsa { digest: None }) as u64 == CKM_ECDSA,
        d == DigestAlgorithm::Sha1 ==> mechanism_code(Mechanism::RsaPkcs1 { digest: Some(d) }) as u64
            == CKM_SHA1_RSA_PKCS && mechanism_code(Mechanism::Ecdsa { digest: Some(d) }) as u64 == CKM_ECDSA_SHA1
            && mechanism_code(Mechanism::Hmac { hash: d }) as u64 == CKM_SHA_1_HMAC,
        d == DigestAlgorithm::Sha224 ==> mechanism_code(Mechanism::RsaPkcs1 { digest: Some(d) }) as u64
            == CKM_SHA224_RSA_PKCS && mechanism_code(Mechanism::Ecdsa { digest: Some(d) }) as u64 == CKM_ECDSA_SHA224
            && mechanism_code(Mechanism::Hmac { hash: d }) as u64 == CKM_SHA224_HMAC,
        d == DigestAlgorithm::Sha256 ==> mechanism_code(Mechanism::RsaPkcs1 { digest: Some(d) }) as u64
            == CKM_SHA256_RSA_PKCS && mechanism_code(Mechanism::Ecdsa { digest: Some(d) }) as u64 == CKM_ECDSA_SHA256
            && mechanism_code(Mechanism::Hmac { hash: d }) as u64 == CKM_SHA256_HMAC,
        d == DigestAlgorithm::Sha384 ==> mechanism_code(Mechanism::RsaPkcs1 { digest: Some(d) }) as u64
            == CKM_SHA384_RSA_PKCS && mechanism_code(Mechanism::Ecdsa { digest: Some(d) }) as u64 == CKM_ECDSA_SHA384
            && mechanism_code(Mechanism::Hmac { hash: d }) as u64 == CKM_SHA384_HMAC,
        d == DigestAlgorithm::Sha512 ==> mechanism_code(Mechanism::RsaPkcs1 { digest: Some(d) }) as u64
            == CKM_SHA512_RSA_PKCS && mechanism_code(Mechanism::Ecdsa { digest: Some(d) }) as u64 == CKM_ECDSA_SHA512
            && mechanism_code(Mechanism::Hmac { hash: d }) as u64 == CKM_SHA512_HMAC,
        m == AesMode::Ecb ==> mechanism_code(Mechanism::Aes { mode: m, key_size }) as u64 == CKM_AES_ECB,
        m == AesMode::Cbc ==> mechanism_code(Mechanism::Aes { mode: m, key_size }) as u64 == CKM_AES_CBC,
        m == AesMode::Ctr ==> mechanism_code(Mechanism::Aes { mode: m, key_size }) as u64 == CKM_AES_CTR,
        m == AesMode::Gcm ==> mechanism_code(Mechanism::Aes { mode: m, key_size }) as u64 == CKM_AES_GCM,
{
}

/// A digest code decodes to the digest that a session's digest operation
/// runs for that code, and encoding a SHA digest gives the code the session
/// takes for it.
pub proof fn lemma_digest_codes_agree_with_sessions(c: u32, d: DigestAlgorithm)
    ensures
        (p11_mechanism(c) == Some(Mechanism::Digest(d))) <==> ck_digest_algorithm(c as u64) == Some(d),
        ck_digest_algorithm(mechanism_code(Mechanism::Digest(d)) as u64) matches Some(e) ==> e == d,
        (d is Sha1 || d is Sha224 || d is Sha256 || d is Sha384 || d is Sha512) ==> ck_digest_algorithm(
            mechanism_code(Mechanism::Digest(d)) as u64,
        ) == Some(d),
{
}

/// The HMAC code of a digest follows its digest code: HMAC with `d` is
/// named by the code after the one that names digesting with `d`.
pub proof fn lemma_hmac_code_follows_digest_code(c: u32, d: DigestAlgorithm)
    requires
        c >= 1,
    ensures
        (p11_mechanism(c) == Some(Mechanism::Hmac { hash: d })) <==> (p11_mechanism((c - 1) as u32) == Some(
            Mechanism::Digest(d),
        )),
{
}

/// The ECDSA codes with a digest come in order of digest strength: a larger
/// code names a longer digest.
pub proof fn lemma_ecdsa_codes_ordered_by_digest(c1: u32, c2: u32, d1: DigestAlgorithm, d2: DigestAlgorithm)
    requires
        p11_mechanism(c1) == Some(Mechanism::Ecdsa { digest: Some(d1) }),
        p11_mechanism(c2) == Some(Mechanism::Ecdsa { digest: Some(d2) }),
        c1 < c2,
    ensures
        digest_len(d1) < digest_len(d2),
{
}

} // verus!
