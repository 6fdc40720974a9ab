//! Key algorithms, key types and key usage flags.

use vstd::prelude::*;

verus! {

/// Cryptographic key algorithms.
#[derive(Debug, Clone, Copy, PartialEq, Eq, Hash, Structural)]
pub enum KeyAlgorithm {
    Rsa1024,
    Rsa2048,
    Rsa3072,
    Rsa4096,
    Rsa8192,
    EcdsaP224,
    EcdsaP256,
    EcdsaP384,
    EcdsaP521,
    EcdsaSecp256k1,
    Aes128,
    Aes192,
    Aes256,
    ChaCha20,
    Ed25519,
    X25519,
}

/// Key size in bits of each algorithm.
pub open spec fn key_bits(a: KeyAlgorithm) -> nat {
    match a {
        KeyAlgorithm::Rsa1024 => 1024,
        KeyAlgorithm::Rsa2048 => 2048,
        KeyAlgorithm::Rsa3072 => 3072,
        KeyAlgorithm::Rsa4096 => 4096,
        KeyAlgorithm::Rsa8192 => 8192,
        KeyAlgorithm::EcdsaP224 => 224,
        KeyAlgorithm::EcdsaP256 => 256,
        KeyAlgorithm::EcdsaP384 => 384,
        KeyAlgorithm::EcdsaP521 => 521,
        KeyAlgorithm::EcdsaSecp256k1 => 256,
        KeyAlgorithm::Aes128 => 128,
        KeyAlgorithm::Aes192 => 192,
        KeyAlgorithm::Aes256 => 256,
        KeyAlgorithm::ChaCha20 => 256,
        KeyAlgorithm::Ed25519 => 256,
        KeyAlgorithm::X25519 => 256,
    }
}

pub open spec fn alg_is_rsa(a: KeyAlgorithm) -> bool {
    ||| a is Rsa1024
    ||| a is Rsa2048
    ||| a is Rsa3072
    ||| a is Rsa4096
    ||| a is Rsa8192
}

pub open spec fn alg_is_ecdsa(a: KeyAlgorithm) -> bool {
    ||| a is EcdsaP224
    ||| a is EcdsaP256
    ||| a is EcdsaP384
    ||| a is EcdsaP521
    ||| a is EcdsaSecp256k1
}

pub open spec fn alg_is_symmetric(a: KeyAlgorithm) -> bool {
    ||| a is Aes128
    ||| a is Aes192
    ||| a is Aes256
    ||| a is ChaCha20
}

pub open spec fn alg_curve_name(a: KeyAlgorithm) -> Option<Seq<char>> {
    match a {
        KeyAlgorithm::EcdsaP224 => Some("secp224r1"@),
        KeyAlgorithm::EcdsaP256 => Some("secp256r1"@),
        KeyAlgorithm::EcdsaP384 => Some("secp384r1"@),
        KeyAlgorithm::EcdsaP521 => Some("secp521r1"@),
        KeyAlgorithm::EcdsaSecp256k1 => Some("secp256k1"@),
        _ => None,
    }
}

pub open spec fn alg_name(a: KeyAlgorithm) -> Seq<char> {
    match a {
        KeyAlgorithm::Rsa1024 => "RSA-1024"@,
        KeyAlgorithm::Rsa2048 => "RSA-2048"@,
        KeyAlgorithm::Rsa3072 => "RSA-3072"@,
        KeyAlgorithm::Rsa4096 => "RSA-4096"@,
        KeyAlgorithm::Rsa8192 => "RSA-8192"@,
        KeyAlgorithm::EcdsaP224 => "ECDSA-P224"@,
        KeyAlgorithm::EcdsaP256 => "ECDSA-P256"@,
        KeyAlgorithm::EcdsaP384 => "ECDSA-P384"@,
        KeyAlgorithm::EcdsaP521 => "ECDSA-P521"@,
        KeyAlgorithm::EcdsaSecp256k1 => "ECDSA-secp256k1"@,
        KeyAlgorithm::Aes128 => "AES-128"@,
        KeyAlgorithm::Aes192 => "AES-192"@,
        KeyAlgorithm::Aes256 => "AES-256"@,
        KeyAlgorithm::ChaCha20 => "ChaCha20"@,
        KeyAlgorithm::Ed25519 => "Ed25519"@,
        KeyAlgorithm::X25519 => "X25519"@,
    }
}

/// The variant name of each algorithm, as its derived `Debug` prints it.
pub open spec fn alg_debug(a: KeyAlgorithm) -> Seq<char> {
    match a {
        KeyAlgorithm::Rsa1024 => "Rsa1024"@,
        KeyAlgorithm::Rsa2048 => "Rsa2048"@,
        KeyAlgorithm::Rsa3072 => "Rsa3072"@,
        KeyAlgorithm::Rsa4096 => "Rsa4096"@,
        KeyAlgorithm::Rsa8192 => "Rsa8192"@,
        KeyAlgorithm::EcdsaP224 => "EcdsaP224"@,
        KeyAlgorithm::EcdsaP256 => "EcdsaP256"@,
        KeyAlgorithm::EcdsaP384 => "EcdsaP384"@,
        KeyAlgorithm::EcdsaP521 => "EcdsaP521"@,
        KeyAlgorithm::EcdsaSecp256k1 => "EcdsaSecp256k1"@,
        KeyAlgorithm::Aes128 => "Aes128"@,
        KeyAlgorithm::Aes192 => "Aes192"@,
        KeyAlgorithm::Aes256 => "Aes256"@,
        KeyAlgorithm::ChaCha20 => "ChaCha20"@,
        KeyAlgorithm::Ed25519 => "Ed25519"@,
        KeyAlgorithm::X25519 => "X25519"@,
    }
}

impl KeyAlgorithm {
    /// The variant name, as the derived `Debug` prints it.
    pub fn debug_name(&self) -> (r: &'static str)
        ensures
            r@ == alg_debug(*self),
    {
        match self {
            KeyAlgorithm::Rsa1024 => "Rsa1024",
            KeyAlgorithm::Rsa2048 => "Rsa2048",
            KeyAlgorithm::Rsa3072 => "Rsa3072",
            KeyAlgorithm::Rsa4096 => "Rsa4096",
            KeyAlgorithm::Rsa8192 => "Rsa8192",
            KeyAlgorithm::EcdsaP224 => "EcdsaP224",
            KeyAlgorithm::EcdsaP256 => "EcdsaP256",
            KeyAlgorithm::EcdsaP384 => "EcdsaP384",
            KeyAlgorithm::EcdsaP521 => "EcdsaP521",
            KeyAlgorithm::EcdsaSecp256k1 => "EcdsaSecp256k1",
            KeyAlgorithm::Aes128 => "Aes128",
            KeyAlgorithm::Aes192 => "Aes192",
            KeyAlgorithm::Aes256 => "Aes256",
            KeyAlgorithm::ChaCha20 => "ChaCha20",
            KeyAlgorithm::Ed25519 => "Ed25519",
            KeyAlgorithm::X25519 => "X25519",
        }
    }

    /// The key size in bits.
    pub fn key_size_bits(&self) -> (r: usize)
        ensures
            r == key_bits(*self),
    {
        match self {
            KeyAlgorithm::Rsa1024 => 1024,
            KeyAlgorithm::Rsa2048 => 2048,
            KeyAlgorithm::Rsa3072 => 3072,
            KeyAlgorithm::Rsa4096 => 4096,
            KeyAlgorithm::Rsa8192 => 8192,
            KeyAlgorithm::EcdsaP224 => 224,
            KeyAlgorithm::EcdsaP256 => 256,
            KeyAlgorithm::EcdsaP384 => 384,
            KeyAlgorithm::EcdsaP521 => 521,
            KeyAlgorithm::EcdsaSecp256k1 => 256,
            KeyAlgorithm::Aes128 => 128,
            KeyAlgorithm::Aes192 => 192,
            KeyAlgorithm::Aes256 => 256,
            KeyAlgorithm::ChaCha20 => 256,
            KeyAlgorithm::Ed25519 => 256,
            KeyAlgorithm::X25519 => 256,
        }
    }

    /// The key size in bytes, the bit size rounded up to whole bytes.
    pub fn key_size_bytes(&self) -> (r: usize)
        ensures
            r == (key_bits(*self) + 7) / 8,
    {
        (self.key_size_bits() + 7) / 8
    }

    pub fn is_rsa(&self) -> (r: bool)
        ensures
            r == alg_is_rsa(*self),
    {
        match self {
            KeyAlgorithm::Rsa1024 | KeyAlgorithm::Rsa2048 | KeyAlgorithm::Rsa3072
            | KeyAlgorithm::Rsa4096 | KeyAlgorithm::Rsa8192 => true,
            _ => false,
        }
    }

    pub fn is_ecdsa(&self) -> (r: bool)
        ensures
            r == alg_is_ecdsa(*self),
    {
        match self {
            KeyAlgorithm::EcdsaP224 | KeyAlgorithm::EcdsaP256 | KeyAlgorithm::EcdsaP384
            | KeyAlgorithm::EcdsaP521 | KeyAlgorithm::EcdsaSecp256k1 => true,
            _ => false,
        }
    }

    pub fn is_symmetric(&self) -> (r: bool)
        ensures
            r == alg_is_symmetric(*self),
    {
        match self {
            KeyAlgorithm::Aes128 | KeyAlgorithm::Aes192 | KeyAlgorithm::Aes256
            | KeyAlgorithm::ChaCha20 => true,
            _ => false,
        }
    }

    /// Every algorithm that is not symmetric counts as asymmetric.
    pub fn is_asymmetric(&self) -> (r: bool)
        ensures
            r == !alg_is_symmetric(*self),
    {
        !self.is_symmetric()
    }

    pub fn is_eddsa(&self) -> (r: bool)
        ensures
            r == (*self is Ed25519),
    {
        match self {
            KeyAlgorithm::Ed25519 => true,
            _ => false,
        }
    }

    pub fn is_key_agreement(&self) -> (r: bool)
        ensures
            r == (*self is X25519),
    {
        match self {
            KeyAlgorithm::X25519 => true,
            _ => false,
        }
    }

    /// The curve name of an ECDSA algorithm, `None` for every other one.
    pub fn curve_name(&self) -> (r: Option<&'static str>)
        ensures
            r matches Some(s) ==> alg_curve_name(*self) == Some(s@),
            r is None <==> alg_curve_name(*self) is None,
    {
        match self {
            KeyAlgorithm::EcdsaP224 => Some("secp224r1"),
            KeyAlgorithm::EcdsaP256 => Some("secp256r1"),
            KeyAlgorithm::EcdsaP384 => Some("secp384r1"),
            KeyAlgorithm::EcdsaP521 => Some("secp521r1"),
            KeyAlgorithm::EcdsaSecp256k1 => Some("secp256k1"),
            _ => None,
        }
    }

    /// The display name of the algorithm.
    pub fn name(&self) -> (r: &'static str)
        ensures
            r@ == alg_name(*self),
    {
        match self {
            KeyAlgorithm::Rsa1024 => "RSA-1024",
            KeyAlgorithm::Rsa2048 => "RSA-2048",
            KeyAlgorithm::Rsa3072 => "RSA-3072",
            KeyAlgorithm::Rsa4096 => "RSA-4096",
            KeyAlgorithm::Rsa8192 => "RSA-8192",
            KeyAlgorithm::EcdsaP224 => "ECDSA-P224",
            KeyAlgorithm::EcdsaP256 => "ECDSA-P256",
            KeyAlgorithm::EcdsaP384 => "ECDSA-P384",
            KeyAlgorithm::EcdsaP521 => "ECDSA-P521",
            KeyAlgorithm::EcdsaSecp256k1 => "ECDSA-secp256k1",
            KeyAlgorithm::Aes128 => "AES-128",
            KeyAlgorithm::Aes192 => "AES-192",
            KeyAlgorithm::Aes256 => "AES-256",
            KeyAlgorithm::ChaCha20 => "ChaCha20",
            KeyAlgorithm::Ed25519 => "Ed25519",
            KeyAlgorithm::X25519 => "X25519",
        }
    }
}

/// Type of a cryptographic key.
#[derive(Debug, Clone, Copy, PartialEq, Eq, Hash, Structural)]
pub enum KeyType {
    Public,
    Private,
    Secret,
}

pub open spec fn key_type_name(t: KeyType) -> Seq<char> {
    match t {
        KeyType::Public => "Public"@,
        KeyType::Private => "Private"@,
        KeyType::Secret => "Secret"@,
    }
}

impl KeyType {
    pub fn is_public(&self) -> (r: bool)
        ensures
            r == (*self is Public),
    {
        match self {
            KeyType::Public => true,
            _ => false,
        }
    }

    pub fn is_private(&self) -> (r: bool)
        ensures
            r == (*self is Private),
    {
        match self {
            KeyType::Private => true,
            _ => false,
        }
    }

    pub fn is_secret(&self) -> (r: bool)
        ensures
            r == (*self is Secret),
    {
        match self {
            KeyType::Secret => true,
            _ => false,
        }
    }

    pub fn name(&self) -> (r: &'static str)
        ensures
            r@ == key_type_name(*self),
    {
        match self {
            KeyType::Public => "Public",
            KeyType::Private => "Private",
            KeyType::Secret => "Secret",
        }
    }
}

/// Key usage flags.
#[derive(Debug, Clone, Copy, PartialEq, Eq, Hash, Structural)]
pub struct KeyUsage {
    pub sign: bool,
    pub verify: bool,
    pub encrypt: bool,
    pub decrypt: bool,
    pub derive: bool,
    pub wrap: bool,
    pub unwrap: bool,
}

/// The usage with every flag set to `b`.
pub open spec fn usage_uniform(b: bool) -> KeyUsage {
    KeyUsage { sign: b, verify: b, encrypt: b, decrypt: b, derive: b, wrap: b, unwrap: b }
}

impl Default for KeyUsage {
    /// No operation allowed.
    fn default() -> (r: Self)
        ensures
            r == usage_uniform(false),
    {
        KeyUsage {
            sign: false,
            verify: false,
            encrypt: false,
            decrypt: false,
            derive: false,
            wrap: false,
            unwrap: false,
        }
    }
}

impl KeyUsage {
    /// Every operation allowed.
    pub fn all() -> (r: Self)
        ensures
            r == usage_uniform(true),
    {
        KeyUsage { sign: true, verify: true, encrypt: true, decrypt: true, derive: true, wrap: true, unwrap: true }
    }

    /// Signing and verification only.
    pub fn sign_verify() -> (r: Self)
        ensures
            r == (KeyUsage { sign: true, verify: true, ..usage_uniform(false) }),
    {
        KeyUsage { sign: true, verify: true, ..Default::default() }
    }

    /// Encryption and decryption only.
    pub fn encrypt_decrypt() -> (r: Self)
        ensures
            r == (KeyUsage { encrypt: true, decrypt: true, ..usage_uniform(false) }),
    {
        KeyUsage { encrypt: true, decrypt: true, ..Default::default() }
    }

    /// Key derivation only.
    pub fn derive_only() -> (r: Self)
        ensures
            r == (KeyUsage { derive: true, ..usage_uniform(false) }),
    {
        KeyUsage { derive: true, ..Default::default() }
    }

    /// Whether any operation is allowed.
    pub fn has_any_usage(&self) -> (r: bool)
        ensures
            r == (*self != usage_uniform(false)),
    {
        self.sign || self.verify || self.encrypt || self.decrypt || self.derive || self.wrap
            || self.unwrap
    }
}

/// The display name identifies the algorithm: different algorithms have
/// different names.
pub proof fn lemma_alg_name_injective(a: KeyAlgorithm, b: KeyAlgorithm)
    ensures
        a != b ==> alg_name(a) != alg_name(b),
{
    reveal_strlit("RSA-1024");
    reveal_strlit("RSA-2048");
    reveal_strlit("RSA-3072");
    reveal_strlit("RSA-4096");
    reveal_strlit("RSA-8192");
    reveal_strlit("ECDSA-P224");
    reveal_strlit("ECDSA-P256");
    reveal_strlit("ECDSA-P384");
    reveal_strlit("ECDSA-P521");
    reveal_strlit("ECDSA-secp256k1");
    reveal_strlit("AES-128");
    reveal_strlit("AES-192");
    reveal_strlit("AES-256");
    reveal_strlit("ChaCha20");
    reveal_strlit("Ed25519");
    reveal_strlit("X25519");
    if a != b && alg_name(a) == alg_name(b) {
        let s = alg_name(a);
        assert(s.len() == alg_name(b).len());
        assert(s[0] == alg_name(b)[0]);
        assert(s[4] == alg_name(b)[4]);
        assert(s[5] == alg_name(b)[5]);
        assert(s.len() == 10 ==> s[7] == alg_name(b)[7] && s[8] == alg_name(b)[8]);
    }
}

} // verus!
