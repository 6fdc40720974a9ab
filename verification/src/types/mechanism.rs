//! Mechanisms, digest algorithms and signature paddings.

use vstd::prelude::*;
use crate::text::{decimal, usize_to_decimal};
use crate::types::key::{KeyAlgorithm, alg_is_rsa, alg_is_ecdsa, alg_is_symmetric};

verus! {

/// Digest (hash) algorithms.
#[derive(Debug, Clone, Copy, PartialEq, Eq, Hash, Structural)]
pub enum DigestAlgorithm {
    Sha1,
    Sha224,
    Sha256,
    Sha384,
    Sha512,
    Sha512_224,
    Sha512_256,
    Sha3_224,
    Sha3_256,
    Sha3_384,
    Sha3_512,
    Blake2b256,
    Blake2b512,
    Blake2s256,
    Md5,
}

/// AES encryption modes.
#[derive(Debug, Clone, Copy, PartialEq, Eq, Hash, Structural)]
pub enum AesMode {
    Ecb,
    Cbc,
    Ctr,
    Gcm,
    Ccm,
}

/// Key derivation function algorithms.
#[derive(Debug, Clone, Copy, PartialEq, Eq, Hash, Structural)]
pub enum KdfAlgorithm {
    Pbkdf2 { hash: DigestAlgorithm },
    Hkdf { hash: DigestAlgorithm },
    Argon2,
    Scrypt,
}

/// RSA signature padding schemes.
#[derive(Debug, Clone, Copy, PartialEq, Eq, Hash, Structural)]
pub enum SignaturePadding {
    Pkcs1v15,
    Pss { salt_len: usize },
    Unpadded,
}

/// How a signature padding is displayed.
pub open spec fn padding_display(p: SignaturePadding) -> Seq<char> {
    match p {
        SignaturePadding::Pkcs1v15 => "PKCS1v15"@,
        SignaturePadding::Pss { salt_len } => "PSS(salt="@ + decimal(salt_len as nat) + ")"@,
        SignaturePadding::Unpadded => "None"@,
    }
}

impl SignaturePadding {
    /// The display form: `PKCS1v15`, `PSS(salt=<n>)` or `None`.
    pub fn display_string(&self) -> (r: String)
        ensures
            r@ == padding_display(*self),
    {
        match self {
            SignaturePadding::Pkcs1v15 => String::from_str("PKCS1v15"),
            SignaturePadding::Pss { salt_len } => {
                let n = usize_to_decimal(*salt_len);
                String::from_str("PSS(salt=").concat(n.as_str()).concat(")")
            },
            SignaturePadding::Unpadded => String::from_str("None"),
        }
    }
}

/// Cryptographic mechanisms supported by backends.
#[derive(Debug, PartialEq, Eq, Hash)]
pub enum Mechanism {
    /// A pure digest.
    Digest(DigestAlgorithm),
    /// RSA PKCS#1 v1.5, with a digest for the signature variants.
    RsaPkcs1 { digest: Option<DigestAlgorithm> },
    /// RSA PKCS#1 PSS signature.
    RsaPkcs1Pss { digest: DigestAlgorithm, mgf: DigestAlgorithm, salt_len: usize },
    /// RSA OAEP encryption.
    RsaOaep { hash: DigestAlgorithm, mgf: DigestAlgorithm, label: Option<Vec<u8>> },
    /// Raw RSA.
    RsaX509,
    /// ECDSA signature.
    Ecdsa { digest: Option<DigestAlgorithm> },
    /// EdDSA signature.
    EdDsa,
    /// AES in a mode, with a key size in bits.
    Aes { mode: AesMode, key_size: usize },
    ChaCha20,
    ChaCha20Poly1305,
    Hmac { hash: DigestAlgorithm },
    Kdf { algorithm: KdfAlgorithm },
    Ecdh,
    X25519,
}

/// The view of an optional byte label.
pub open spec fn label_view(l: Option<Vec<u8>>) -> Option<Seq<u8>> {
    match l {
        Some(v) => Some(v@),
        None => None,
    }
}

/// `a` is a copy of `b`: equal, up to the contents of an OAEP label, which
/// compare by their bytes.
pub open spec fn mech_copy_of(a: Mechanism, b: Mechanism) -> bool {
    match (a, b) {
        (
            Mechanism::RsaOaep { hash: h1, mgf: m1, label: l1 },
            Mechanism::RsaOaep { hash: h2, mgf: m2, label: l2 },
        ) => h1 == h2 && m1 == m2 && label_view(l1) == label_view(l2),
        _ => a == b,
    }
}

impl Clone for Mechanism {
    fn clone(&self) -> (r: Self)
        ensures
            mech_copy_of(r, *self),
    {
        match self {
            Mechanism::Digest(a) => Mechanism::Digest(*a),
            Mechanism::RsaPkcs1 { digest } => Mechanism::RsaPkcs1 { digest: *digest },
            Mechanism::RsaPkcs1Pss { digest, mgf, salt_len } => Mechanism::RsaPkcs1Pss {
                digest: *digest,
                mgf: *mgf,
                salt_len: *salt_len,
            },
            Mechanism::RsaOaep { hash, mgf, label } => {
                let l = match label {
                    Some(v) => {
                        let c = v.clone();
                        assert(c@ =~= v@);
                        Some(c)
                    },
                    None => None,
                };
                Mechanism::RsaOaep { hash: *hash, mgf: *mgf, label: l }
            },
            Mechanism::RsaX509 => Mechanism::RsaX509,
            Mechanism::Ecdsa { digest } => Mechanism::Ecdsa { digest: *digest },
            Mechanism::EdDsa => Mechanism::EdDsa,
            Mechanism::Aes { mode, key_size } => Mechanism::Aes { mode: *mode, key_size: *key_size },
            Mechanism::ChaCha20 => Mechanism::ChaCha20,
            Mechanism::ChaCha20Poly1305 => Mechanism::ChaCha20Poly1305,
            Mechanism::Hmac { hash } => Mechanism::Hmac { hash: *hash },
            Mechanism::Kdf { algorithm } => Mechanism::Kdf { algorithm: *algorithm },
            Mechanism::Ecdh => Mechanism::Ecdh,
            Mechanism::X25519 => Mechanism::X25519,
        }
    }
}

/// Output size in bytes of each digest algorithm.
pub open spec fn digest_len(a: DigestAlgorithm) -> nat {
    match a {
        DigestAlgorithm::Sha1 => 20,
        DigestAlgorithm::Sha224 => 28,
        DigestAlgorithm::Sha256 => 32,
        DigestAlgorithm::Sha384 => 48,
        DigestAlgorithm::Sha512 => 64,
        DigestAlgorithm::Sha512_224 => 28,
        DigestAlgorithm::Sha512_256 => 32,
        DigestAlgorithm::Sha3_224 => 28,
        DigestAlgorithm::Sha3_256 => 32,
        DigestAlgorithm::Sha3_384 => 48,
        DigestAlgorithm::Sha3_512 => 64,
        DigestAlgorithm::Blake2b256 => 32,
        DigestAlgorithm::Blake2b512 => 64,
        DigestAlgorithm::Blake2s256 => 32,
        DigestAlgorithm::Md5 => 16,
    }
}

/// Display name of each digest algorithm.
pub open spec fn digest_name(a: DigestAlgorithm) -> Seq<char> {
    match a {
        DigestAlgorithm::Sha1 => "SHA1"@,
        DigestAlgorithm::Sha224 => "SHA224"@,
        DigestAlgorithm::Sha256 => "SHA256"@,
        DigestAlgorithm::Sha384 => "SHA384"@,
        DigestAlgorithm::Sha512 => "SHA512"@,
        DigestAlgorithm::Sha512_224 => "SHA512-224"@,
        DigestAlgorithm::Sha512_256 => "SHA512-256"@,
        DigestAlgorithm::Sha3_224 => "SHA3-224"@,
        DigestAlgorithm::Sha3_256 => "SHA3-256"@,
        DigestAlgorithm::Sha3_384 => "SHA3-384"@,
        DigestAlgorithm::Sha3_512 => "SHA3-512"@,
        DigestAlgorithm::Blake2b256 => "BLAKE2b-256"@,
        DigestAlgorithm::Blake2b512 => "BLAKE2b-512"@,
        DigestAlgorithm::Blake2s256 => "BLAKE2s-256"@,
        DigestAlgorithm::Md5 => "MD5"@,
    }
}

/// The variant name of each digest algorithm, as its derived `Debug` prints it.
pub open spec fn digest_debug(a: DigestAlgorithm) -> Seq<char> {
    match a {
        DigestAlgorithm::Sha1 => "Sha1"@,
        DigestAlgorithm::Sha224 => "Sha224"@,
        DigestAlgorithm::Sha256 => "Sha256"@,
        DigestAlgorithm::Sha384 => "Sha384"@,
        DigestAlgorithm::Sha512 => "Sha512"@,
        DigestAlgorithm::Sha512_224 => "Sha512_224"@,
        DigestAlgorithm::Sha512_256 => "Sha512_256"@,
        DigestAlgorithm::Sha3_224 => "Sha3_224"@,
        DigestAlgorithm::Sha3_256 => "Sha3_256"@,
        DigestAlgorithm::Sha3_384 => "Sha3_384"@,
        DigestAlgorithm::Sha3_512 => "Sha3_512"@,
        DigestAlgorithm::Blake2b256 => "Blake2b256"@,
        DigestAlgorithm::Blake2b512 => "Blake2b512"@,
        DigestAlgorithm::Blake2s256 => "Blake2s256"@,
        DigestAlgorithm::Md5 => "Md5"@,
    }
}

/// The variant name of each AES mode, as its derived `Debug` prints it.
pub open spec fn aes_mode_debug(m: AesMode) -> Seq<char> {
    match m {
        AesMode::Ecb => "Ecb"@,
        AesMode::Cbc => "Cbc"@,
        AesMode::Ctr => "Ctr"@,
        AesMode::Gcm => "Gcm"@,
        AesMode::Ccm => "Ccm"@,
    }
}

/// The derived `Debug` rendering of a KDF algorithm.
pub open spec fn kdf_debug(k: KdfAlgorithm) -> Seq<char> {
    match k {
        KdfAlgorithm::Pbkdf2 { hash } => "Pbkdf2 { hash: "@ + digest_debug(hash) + " }"@,
        KdfAlgorithm::Hkdf { hash } => "Hkdf { hash: "@ + digest_debug(hash) + " }"@,
        KdfAlgorithm::Argon2 => "Argon2"@,
        KdfAlgorithm::Scrypt => "Scrypt"@,
    }
}

/// Display name of each mechanism.
pub open spec fn mechanism_name(m: Mechanism) -> Seq<char> {
    match m {
        Mechanism::Digest(a) => "DIGEST-"@ + digest_name(a),
        Mechanism::RsaPkcs1 { digest: Some(d) } => "RSA-PKCS1-"@ + digest_name(d),
        Mechanism::RsaPkcs1 { digest: None } => "RSA-PKCS1"@,
        Mechanism::RsaPkcs1Pss { digest, .. } => "RSA-PSS-"@ + digest_name(digest),
        Mechanism::RsaOaep { hash, .. } => "RSA-OAEP-"@ + digest_name(hash),
        Mechanism::RsaX509 => "RSA-X509"@,
        Mechanism::Ecdsa { digest: Some(d) } => "ECDSA-"@ + digest_name(d),
        Mechanism::Ecdsa { digest: None } => "ECDSA"@,
        Mechanism::EdDsa => "EdDSA"@,
        Mechanism::Aes { mode, key_size } => "AES"@ + decimal(key_size as nat) + "-"@
            + aes_mode_debug(mode),
        Mechanism::ChaCha20 => "ChaCha20"@,
        Mechanism::ChaCha20Poly1305 => "ChaCha20-Poly1305"@,
        Mechanism::Hmac { hash } => "HMAC-"@ + digest_name(hash),
        Mechanism::Kdf { algorithm } => "KDF-"@ + kdf_debug(algorithm),
        Mechanism::Ecdh => "ECDH"@,
        Mechanism::X25519 => "X25519"@,
    }
}

pub open spec fn mech_is_sign(m: Mechanism) -> bool {
    ||| m is RsaPkcs1
    ||| m is RsaPkcs1Pss
    ||| m is Ecdsa
    ||| m is EdDsa
    ||| m is Hmac
}

pub open spec fn mech_is_encrypt(m: Mechanism) -> bool {
    ||| m matches Mechanism::RsaPkcs1 { digest: None }
    ||| m is RsaOaep
    ||| m is RsaX509
    ||| m is Aes
    ||| m is ChaCha20
    ||| m is ChaCha20Poly1305
}

/// Whether a mechanism can run with a key of the given algorithm.
pub open spec fn mech_supports(m: Mechanism, a: KeyAlgorithm) -> bool {
    match m {
        Mechanism::RsaPkcs1 { .. } | Mechanism::RsaPkcs1Pss { .. } | Mechanism::RsaOaep { .. }
        | Mechanism::RsaX509 => alg_is_rsa(a),
        Mechanism::Ecdsa { .. } => alg_is_ecdsa(a),
        Mechanism::EdDsa => a is Ed25519,
        Mechanism::Aes { key_size, .. } => (key_size == 128 && a is Aes128) || (key_size == 192
            && a is Aes192) || (key_size == 256 && a is Aes256),
        Mechanism::ChaCha20 | Mechanism::ChaCha20Poly1305 => a is ChaCha20,
        Mechanism::Ecdh => alg_is_ecdsa(a),
        Mechanism::X25519 => a is X25519,
        Mechanism::Hmac { .. } => alg_is_symmetric(a),
        Mechanism::Digest(_) => false,
        Mechanism::Kdf { .. } => true,
    }
}

/// The output size of digest and HMAC mechanisms.
pub open spec fn mech_output_size(m: Mechanism) -> Option<nat> {
    match m {
        Mechanism::Digest(a) => Some(digest_len(a)),
        Mechanism::Hmac { hash } => Some(digest_len(hash)),
        _ => None,
    }
}

impl DigestAlgorithm {
    /// The output size in bytes.
    pub fn output_size(&self) -> (r: usize)
        ensures
            r == digest_len(*self),
    {
        match self {
            DigestAlgorithm::Sha1 => 20,
            DigestAlgorithm::Sha224 => 28,
            DigestAlgorithm::Sha256 => 32,
            DigestAlgorithm::Sha384 => 48,
            DigestAlgorithm::Sha512 => 64,
            DigestAlgorithm::Sha512_224 => 28,
            DigestAlgorithm::Sha512_256 => 32,
            DigestAlgorithm::Sha3_224 => 28,
            DigestAlgorithm::Sha3_256 => 32,
            DigestAlgorithm::Sha3_384 => 48,
            DigestAlgorithm::Sha3_512 => 64,
            DigestAlgorithm::Blake2b256 => 32,
            DigestAlgorithm::Blake2b512 => 64,
            DigestAlgorithm::Blake2s256 => 32,
            DigestAlgorithm::Md5 => 16,
        }
    }

    /// The display name.
    pub fn name(&self) -> (r: &'static str)
        ensures
            r@ == digest_name(*self),
    {
        match self {
            DigestAlgorithm::Sha1 => "SHA1",
            DigestAlgorithm::Sha224 => "SHA224",
            DigestAlgorithm::Sha256 => "SHA256",
            DigestAlgorithm::Sha384 => "SHA384",
            DigestAlgorithm::Sha512 => "SHA512",
            DigestAlgorithm::Sha512_224 => "SHA512-224",
            DigestAlgorithm::Sha512_256 => "SHA512-256",
            DigestAlgorithm::Sha3_224 => "SHA3-224",
            DigestAlgorithm::Sha3_256 => "SHA3-256",
            DigestAlgorithm::Sha3_384 => "SHA3-384",
            DigestAlgorithm::Sha3_512 => "SHA3-512",
            DigestAlgorithm::Blake2b256 => "BLAKE2b-256",
            DigestAlgorithm::Blake2b512 => "BLAKE2b-512",
            DigestAlgorithm::Blake2s256 => "BLAKE2s-256",
            DigestAlgorithm::Md5 => "MD5",
        }
    }

    /// The variant name, as the derived `Debug` prints it.
    pub fn debug_name(&self) -> (r: &'static str)
        ensures
            r@ == digest_debug(*self),
    {
        match self {
            DigestAlgorithm::Sha1 => "Sha1",
            DigestAlgorithm::Sha224 => "Sha224",
            DigestAlgorithm::Sha256 => "Sha256",
            DigestAlgorithm::Sha384 => "Sha384",
            DigestAlgorithm::Sha512 => "Sha512",
            DigestAlgorithm::Sha512_224 => "Sha512_224",
            DigestAlgorithm::Sha512_256 => "Sha512_256",
            DigestAlgorithm::Sha3_224 => "Sha3_224",
            DigestAlgorithm::Sha3_256 => "Sha3_256",
            DigestAlgorithm::Sha3_384 => "Sha3_384",
            DigestAlgorithm::Sha3_512 => "Sha3_512",
            DigestAlgorithm::Blake2b256 => "Blake2b256",
            DigestAlgorithm::Blake2b512 => "Blake2b512",
            DigestAlgorithm::Blake2s256 => "Blake2s256",
            DigestAlgorithm::Md5 => "Md5",
        }
    }

    /// SHA-1 and MD5 are not considered secure; every other algorithm is.
    pub fn is_secure(&self) -> (r: bool)
        ensures
            r == !(*self is Sha1 || *self is Md5),
    {
        match self {
            DigestAlgorithm::Sha1 | DigestAlgorithm::Md5 => false,
            _ => true,
        }
    }
}

impl AesMode {
    /// The variant name, as the derived `Debug` prints it.
    pub fn debug_name(&self) -> (r: &'static str)
        ensures
            r@ == aes_mode_debug(*self),
    {
        match self {
            AesMode::Ecb => "Ecb",
            AesMode::Cbc => "Cbc",
            AesMode::Ctr => "Ctr",
            AesMode::Gcm => "Gcm",
            AesMode::Ccm => "Ccm",
        }
    }
}

impl KdfAlgorithm {
    /// The rendering that the derived `Debug` prints.
    pub fn debug_name(&self) -> (r: String)
        ensures
            r@ == kdf_debug(*self),
    {
        match self {
            KdfAlgorithm::Pbkdf2 { hash } => {
                let mut s = String::from_str("Pbkdf2 { hash: ");
                s.append(hash.debug_name());
                s.append(" }");
                s
            },
            KdfAlgorithm::Hkdf { hash } => {
                let mut s = String::from_str("Hkdf { hash: ");
                s.append(hash.debug_name());
                s.append(" }");
                s
            },
            KdfAlgorithm::Argon2 => String::from_str("Argon2"),
            KdfAlgorithm::Scrypt => String::from_str("Scrypt"),
        }
    }
}

impl Mechanism {
    /// The display name of the mechanism.
    pub fn name(&self) -> (r: String)
        ensures
            r@ == mechanism_name(*self),
    {
        match self {
            Mechanism::Digest(a) => String::from_str("DIGEST-").concat(a.name()),
            Mechanism::RsaPkcs1 { digest: Some(d) } => String::from_str("RSA-PKCS1-").concat(d.name()),
            Mechanism::RsaPkcs1 { digest: None } => String::from_str("RSA-PKCS1"),
            Mechanism::RsaPkcs1Pss { digest, .. } => String::from_str("RSA-PSS-").concat(digest.name()),
            Mechanism::RsaOaep { hash, .. } => String::from_str("RSA-OAEP-").concat(hash.name()),
            Mechanism::RsaX509 => String::from_str("RSA-X509"),
            Mechanism::Ecdsa { digest: Some(d) } => String::from_str("ECDSA-").concat(d.name()),
            Mechanism::Ecdsa { digest: None } => String::from_str("ECDSA"),
            Mechanism::EdDsa => String::from_str("EdDSA"),
            Mechanism::Aes { mode, key_size } => {
                let size = usize_to_decimal(*key_size);
                let mut s = String::from_str("AES");
                s.append(size.as_str());
                s.append("-");
                s.append(mode.debug_name());
                s
            },
            Mechanism::ChaCha20 => String::from_str("ChaCha20"),
            Mechanism::ChaCha20Poly1305 => String::from_str("ChaCha20-Poly1305"),
            Mechanism::Hmac { hash } => String::from_str("HMAC-").concat(hash.name()),
            Mechanism::Kdf { algorithm } => {
                let k = algorithm.debug_name();
                String::from_str("KDF-").concat(k.as_str())
            },
            Mechanism::Ecdh => String::from_str("ECDH"),
            Mechanism::X25519 => String::from_str("X25519"),
        }
    }

    pub fn is_sign_mechanism(&self) -> (r: bool)
        ensures
            r == mech_is_sign(*self),
    {
        match self {
            Mechanism::RsaPkcs1 { .. } | Mechanism::RsaPkcs1Pss { .. } | Mechanism::Ecdsa { .. }
            | Mechanism::EdDsa | Mechanism::Hmac { .. } => true,
            _ => false,
        }
    }

    pub fn is_encrypt_mechanism(&self) -> (r: bool)
        ensures
            r == mech_is_encrypt(*self),
    {
        match self {
            Mechanism::RsaPkcs1 { digest: None } | Mechanism::RsaOaep { .. } | Mechanism::RsaX509
            | Mechanism::Aes { .. } | Mechanism::ChaCha20 | Mechanism::ChaCha20Poly1305 => true,
            _ => false,
        }
    }

    pub fn is_digest_mechanism(&self) -> (r: bool)
        ensures
            r == (*self is Digest),
    {
        match self {
            Mechanism::Digest(_) => true,
            _ => false,
        }
    }

    pub fn is_kdf_mechanism(&self) -> (r: bool)
        ensures
            r == (*self is Kdf),
    {
        match self {
            Mechanism::Kdf { .. } => true,
            _ => false,
        }
    }

    pub fn is_key_agreement_mechanism(&self) -> (r: bool)
        ensures
            r == (*self is Ecdh || *self is X25519),
    {
        match self {
            Mechanism::Ecdh | Mechanism::X25519 => true,
            _ => false,
        }
    }

    /// Whether the mechanism can run with a key of algorithm `key_alg`.
    pub fn supports_key_algorithm(&self, key_alg: KeyAlgorithm) -> (r: bool)
        ensures
            r == mech_supports(*self, key_alg),
    {
        match self {
            Mechanism::RsaPkcs1 { .. } | Mechanism::RsaPkcs1Pss { .. } | Mechanism::RsaOaep { .. }
            | Mechanism::RsaX509 => key_alg.is_rsa(),
            Mechanism::Ecdsa { .. } => key_alg.is_ecdsa(),
            Mechanism::EdDsa => key_alg.is_eddsa(),
            Mechanism::Aes { key_size, .. } => match key_alg {
                KeyAlgorithm::Aes128 => *key_size == 128,
                KeyAlgorithm::Aes192 => *key_size == 192,
                KeyAlgorithm::Aes256 => *key_size == 256,
                _ => false,
            },
            Mechanism::ChaCha20 | Mechanism::ChaCha20Poly1305 => match key_alg {
                KeyAlgorithm::ChaCha20 => true,
                _ => false,
            },
            Mechanism::Ecdh => key_alg.is_ecdsa(),
            Mechanism::X25519 => key_alg.is_key_agreement(),
            Mechanism::Hmac { .. } => key_alg.is_symmetric(),
            Mechanism::Digest(_) => false,
            Mechanism::Kdf { .. } => true,
        }
    }

    /// The output size of digest and HMAC mechanisms; `None` for the others.
    pub fn output_size(&self) -> (r: Option<usize>)
        ensures
            r matches Some(n) ==> mech_output_size(*self) == Some(n as nat),
            r is None <==> mech_output_size(*self) is None,
    {
        match self {
            Mechanism::Digest(a) => Some(a.output_size()),
            Mechanism::Hmac { hash } => Some(hash.output_size()),
            _ => None,
        }
    }
}

/// The derived `Debug` rendering of an optional digest.
pub open spec fn opt_digest_debug(o: Option<DigestAlgorithm>) -> Seq<char> {
    match o {
        Some(d) => "Some("@ + digest_debug(d) + ")"@,
        None => "None"@,
    }
}

/// The elements of a byte list in `Debug` form, each preceded by `, `.
pub open spec fn bytes_debug_tail(b: Seq<u8>) -> Seq<char>
    decreases b.len(),
{
    if b.len() == 0 {
        seq![]
    } else {
        bytes_debug_tail(b.drop_last()) + ", "@ + decimal(b.last() as nat)
    }
}

/// The `Debug` rendering of a byte list: `[1, 2, 3]`.
pub open spec fn bytes_debug(b: Seq<u8>) -> Seq<char> {
    if b.len() == 0 {
        "[]"@
    } else {
        "["@ + decimal(b[0] as nat) + bytes_debug_tail(b.drop_first()) + "]"@
    }
}

/// The derived `Debug` rendering of a mechanism.
pub open spec fn mech_debug(m: Mechanism) -> Seq<char> {
    match m {
        Mechanism::Digest(a) => "Digest("@ + digest_debug(a) + ")"@,
        Mechanism::RsaPkcs1 { digest } => "RsaPkcs1 { digest: "@ + opt_digest_debug(digest) + " }"@,
        Mechanism::RsaPkcs1Pss { digest, mgf, salt_len } => "RsaPkcs1Pss { digest: "@ + digest_debug(digest)
            + ", mgf: "@ + digest_debug(mgf) + ", salt_len: "@ + decimal(salt_len as nat) + " }"@,
        Mechanism::RsaOaep { hash, mgf, label } => "RsaOaep { hash: "@ + digest_debug(hash) + ", mgf: "@
            + digest_debug(mgf) + ", label: "@ + match label {
            Some(l) => "Some("@ + bytes_debug(l@) + ")"@,
            None => "None"@,
        } + " }"@,
        Mechanism::RsaX509 => "RsaX509"@,
        Mechanism::Ecdsa { digest } => "Ecdsa { digest: "@ + opt_digest_debug(digest) + " }"@,
        Mechanism::EdDsa => "EdDsa"@,
        Mechanism::Aes { mode, key_size } => "Aes { mode: "@ + aes_mode_debug(mode) + ", key_size: "@ + decimal(
            key_size as nat,
        ) + " }"@,
        Mechanism::ChaCha20 => "ChaCha20"@,
        Mechanism::ChaCha20Poly1305 => "ChaCha20Poly1305"@,
        Mechanism::Hmac { hash } => "Hmac { hash: "@ + digest_debug(hash) + " }"@,
        Mechanism::Kdf { algorithm } => "Kdf { algorithm: "@ + kdf_debug(algorithm) + " }"@,
        Mechanism::Ecdh => "Ecdh"@,
        Mechanism::X25519 => "X25519"@,
    }
}

/// The `Debug` rendering of an optional digest.
fn opt_digest_string(o: &Option<DigestAlgorithm>) -> (r: String)
    ensures
        r@ == opt_digest_debug(*o),
{
    match o {
        Some(d) => String::from_str("Some(").concat(d.debug_name()).concat(")"),
        None => String::from_str("None"),
    }
}

/// The `Debug` rendering of a byte list.
pub fn bytes_debug_string(b: &[u8]) -> (r: String)
    ensures
        r@ == bytes_debug(b@),
{
    if b.len() == 0 {
        return String::from_str("[]");
    }
    let first = usize_to_decimal(b[0] as usize);
    let mut s = String::from_str("[").concat(first.as_str());
    let mut i: usize = 1;
    let ghost rest = b@.drop_first();
    while i < b.len()
        invariant
            1 <= i <= b@.len(),
            rest == b@.drop_first(),
            s@ == "["@ + decimal(b@[0] as nat) + bytes_debug_tail(rest.subrange(0, i - 1)),
        decreases b@.len() - i,
    {
        let d = usize_to_decimal(b[i] as usize);
        s.append(", ");
        s.append(d.as_str());
        proof {
            assert(rest.subrange(0, i as int).drop_last() =~= rest.subrange(0, i - 1));
            assert(rest.subrange(0, i as int).last() == b@[i as int]);
        }
        i = i + 1;
    }
    proof {
        assert(rest.subrange(0, b@.len() - 1) =~= rest);
    }
    s.append("]");
    s
}

impl Mechanism {
    /// The rendering that the derived `Debug` prints.
    pub fn debug_string(&self) -> (r: String)
        ensures
            r@ == mech_debug(*self),
    {
        match self {
            Mechanism::Digest(a) => String::from_str("Digest(").concat(a.debug_name()).concat(")"),
            Mechanism::RsaPkcs1 { digest } => {
                let d = opt_digest_string(digest);
                String::from_str("RsaPkcs1 { digest: ").concat(d.as_str()).concat(" }")
            },
            Mechanism::RsaPkcs1Pss { digest, mgf, salt_len } => {
                let salt = usize_to_decimal(*salt_len);
                String::from_str("RsaPkcs1Pss { digest: ").concat(digest.debug_name()).concat(", mgf: ").concat(
                    mgf.debug_name(),
                ).concat(", salt_len: ").concat(salt.as_str()).concat(" }")
            },
            Mechanism::RsaOaep { hash, mgf, label } => {
                let l = match label {
                    Some(v) => {
                        let inner = bytes_debug_string(v.as_slice());
                        String::from_str("Some(").concat(inner.as_str()).concat(")")
                    },
                    None => String::from_str("None"),
                };
                String::from_str("RsaOaep { hash: ").concat(hash.debug_name()).concat(", mgf: ").concat(
                    mgf.debug_name(),
                ).concat(", label: ").concat(l.as_str()).concat(" }")
            },
            Mechanism::RsaX509 => String::from_str("RsaX509"),
            Mechanism::Ecdsa { digest } => {
                let d = opt_digest_string(digest);
                String::from_str("Ecdsa { digest: ").concat(d.as_str()).concat(" }")
            },
            Mechanism::EdDsa => String::from_str("EdDsa"),
            Mechanism::Aes { mode, key_size } => {
                let k = usize_to_decimal(*key_size);
                String::from_str("Aes { mode: ").concat(mode.debug_name()).concat(", key_size: ").concat(
                    k.as_str(),
                ).concat(" }")
            },
            Mechanism::ChaCha20 => String::from_str("ChaCha20"),
            Mechanism::ChaCha20Poly1305 => String::from_str("ChaCha20Poly1305"),
            Mechanism::Hmac { hash } => String::from_str("Hmac { hash: ").concat(hash.debug_name()).concat(" }"),
            Mechanism::Kdf { algorithm } => {
                let k = algorithm.debug_name();
                String::from_str("Kdf { algorithm: ").concat(k.as_str()).concat(" }")
            },
            Mechanism::Ecdh => String::from_str("Ecdh"),
            Mechanism::X25519 => String::from_str("X25519"),
        }
    }
}

} // verus!
