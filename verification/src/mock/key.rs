//! Mock keys, key pairs and certificates.

use vstd::prelude::*;
use crate::clock::now_unix_secs;
use crate::digests::{AwsDigest, aws_digest, aws_lc_digest, sha2_sha256, sha256};
use crate::mock::config::{DEFAULT_SEED, MockConfig, seeded_bytes, seeded_or_random};
use crate::text::{decimal, push_char, usize_to_decimal};
use crate::traits::key::{Certificate, Key, KeyPair, is_read_only_attribute, read_only_attribute};
use crate::types::context::{attr_map, attrs_insert, attrs_unique, copy_attrs};
use crate::types::error::{BackendError, BackendResult};
use crate::types::key::{KeyAlgorithm, KeyType, KeyUsage, alg_is_rsa, key_bits, usage_uniform};

verus! {

/// Usage of a mock RSA private key: sign and decrypt.
pub open spec fn rsa_private_usage() -> KeyUsage {
    KeyUsage { sign: true, decrypt: true, ..usage_uniform(false) }
}

/// Usage of a mock RSA public key: verify and encrypt.
pub open spec fn rsa_public_usage() -> KeyUsage {
    KeyUsage { verify: true, encrypt: true, ..usage_uniform(false) }
}

/// Usage of a mock ECDSA private key: sign and derive.
pub open spec fn ecdsa_private_usage() -> KeyUsage {
    KeyUsage { sign: true, derive: true, ..usage_uniform(false) }
}

/// Usage of a mock ECDSA public key: verify and derive.
pub open spec fn ecdsa_public_usage() -> KeyUsage {
    KeyUsage { verify: true, derive: true, ..usage_uniform(false) }
}

/// Usage of a mock symmetric key: everything but sign and verify.
pub open spec fn symmetric_usage() -> KeyUsage {
    KeyUsage { encrypt: true, decrypt: true, derive: true, wrap: true, unwrap: true, ..usage_uniform(false) }
}

/// The algorithms whose imported keys get RSA usages.
pub open spec fn mock_rsa_alg(a: KeyAlgorithm) -> bool {
    a == KeyAlgorithm::Rsa2048 || a == KeyAlgorithm::Rsa3072 || a == KeyAlgorithm::Rsa4096
}

/// The algorithms whose imported keys get ECDSA usages.
pub open spec fn mock_ecdsa_alg(a: KeyAlgorithm) -> bool {
    a == KeyAlgorithm::EcdsaP256 || a == KeyAlgorithm::EcdsaP384
}

/// Usage of an imported private key of algorithm `a`.
pub open spec fn imported_private_usage(a: KeyAlgorithm) -> KeyUsage {
    if mock_rsa_alg(a) {
        rsa_private_usage()
    } else if mock_ecdsa_alg(a) {
        ecdsa_private_usage()
    } else {
        usage_uniform(false)
    }
}

/// Usage of an imported (or derived) public key of algorithm `a`.
pub open spec fn imported_public_usage(a: KeyAlgorithm) -> KeyUsage {
    if mock_rsa_alg(a) {
        rsa_public_usage()
    } else if mock_ecdsa_alg(a) {
        ecdsa_public_usage()
    } else {
        usage_uniform(false)
    }
}

/// Each byte incremented by one, wrapping at 256: the mock public part of a
/// private key.
pub open spec fn bumped(s: Seq<u8>) -> Seq<u8> {
    Seq::new(s.len(), |i: int| ((s[i] + 1) % 256) as u8)
}

/// The bytes of `s` incremented by one, wrapping.
pub fn bump_bytes(s: &[u8]) -> (r: Vec<u8>)
    ensures
        r@ == bumped(s@),
{
    let mut out: Vec<u8> = Vec::with_capacity(s.len());
    let mut i: usize = 0;
    while i < s.len()
        invariant
            0 <= i <= s@.len(),
            out@ == bumped(s@).subrange(0, i as int),
        decreases s@.len() - i,
    {
        out.push(s[i].wrapping_add(1));
        proof {
            assert(out@ =~= bumped(s@).subrange(0, i + 1));
        }
        i = i + 1;
    }
    proof {
        assert(bumped(s@).subrange(0, s@.len() as int) =~= bumped(s@));
    }
    out
}

/// A mock key: its material is plain bytes.
#[derive(Debug)]
pub struct MockKey {
    pub(crate) algorithm: KeyAlgorithm,
    pub(crate) key_type: KeyType,
    pub(crate) key_data: Vec<u8>,
    pub(crate) key_id: Option<Vec<u8>>,
    pub(crate) label: Option<String>,
    pub(crate) usage: KeyUsage,
    pub(crate) extractable: bool,
    pub(crate) sensitive: bool,
    pub(crate) attributes: Vec<(String, Vec<u8>)>,
}

/// The view of an optional byte string.
pub open spec fn opt_bytes(o: Option<Vec<u8>>) -> Option<Seq<u8>> {
    match o {
        Some(v) => Some(v@),
        None => None,
    }
}

/// The view of an optional string.
pub open spec fn opt_chars(o: Option<String>) -> Option<Seq<char>> {
    match o {
        Some(v) => Some(v@),
        None => None,
    }
}

impl MockKey {
    /// Attribute names are unique.
    #[verifier::type_invariant]
    spec fn well_formed(self) -> bool {
        attrs_unique(self.attributes@)
    }

    /// The key material.
    pub closed spec fn spec_key_data(&self) -> Seq<u8> {
        self.key_data@
    }

    /// The key identifier.
    pub closed spec fn spec_key_id(&self) -> Option<Seq<u8>> {
        opt_bytes(self.key_id)
    }

    /// The label.
    pub closed spec fn spec_label(&self) -> Option<Seq<char>> {
        opt_chars(self.label)
    }

    /// A new key with no attributes, extractable and not sensitive.
    fn fresh(
        algorithm: KeyAlgorithm,
        key_type: KeyType,
        key_data: Vec<u8>,
        key_id: Option<Vec<u8>>,
        label: String,
        usage: KeyUsage,
    ) -> (r: Self)
        ensures
            r.spec_algorithm() == algorithm,
            r.spec_key_type() == key_type,
            r.spec_key_data() == key_data@,
            r.spec_key_id() == opt_bytes(key_id),
            r.spec_label() == Some(label@),
            r.spec_usage() == usage,
            r.spec_extractable(),
            !r.spec_sensitive(),
            r.spec_attributes() == Map::<Seq<char>, Seq<u8>>::empty(),
    {
        let r = MockKey {
            algorithm,
            key_type,
            key_data,
            key_id,
            label: Some(label),
            usage,
            extractable: true,
            sensitive: false,
            attributes: Vec::new(),
        };
        proof {
            assert(attr_map(r.attributes@) =~= Map::<Seq<char>, Seq<u8>>::empty());
        }
        r
    }

    /// `prefix` followed by the decimal key size.
    fn sized_label(prefix: &str, bits: usize) -> (s: String)
        ensures
            s@ == prefix@ + decimal(bits as nat),
    {
        let digits = usize_to_decimal(bits);
        String::from_str(prefix).concat(digits.as_str())
    }

    /// A generated key of `len` bytes of material and a 16-byte identifier.
    fn generated(
        algorithm: KeyAlgorithm,
        key_type: KeyType,
        len: usize,
        prefix: &str,
        usage: KeyUsage,
        config: &MockConfig,
    ) -> (r: Self)
        ensures
            r.spec_algorithm() == algorithm,
            r.spec_key_type() == key_type,
            r.spec_key_data().len() == len,
            config.deterministic ==> r.spec_key_data() == seeded_bytes(DEFAULT_SEED as int, len as nat),
            r.spec_key_id() matches Some(id) && id.len() == 16 && (config.deterministic ==> id
                == seeded_bytes(DEFAULT_SEED as int, 16)),
            r.spec_label() == Some(prefix@ + decimal(key_bits(algorithm))),
            r.spec_usage() == usage,
            r.spec_extractable(),
            !r.spec_sensitive(),
            r.spec_attributes() == Map::<Seq<char>, Seq<u8>>::empty(),
    {
        let bits = algorithm.key_size_bits();
        let key_data = seeded_or_random(config.deterministic, DEFAULT_SEED, len);
        let key_id = seeded_or_random(config.deterministic, DEFAULT_SEED, 16);
        MockKey::fresh(algorithm, key_type, key_data, Some(key_id), MockKey::sized_label(prefix, bits), usage)
    }

    /// A new mock RSA private key: `bits / 8` bytes of material.
    pub fn new_rsa_private(algorithm: KeyAlgorithm, config: &MockConfig) -> (r: BackendResult<Self>)
        ensures
            r matches Ok(k) && k.spec_algorithm() == algorithm && k.spec_key_type() == KeyType::Private
                && k.spec_key_data().len() == key_bits(algorithm) / 8 && (config.deterministic
                ==> k.spec_key_data() == seeded_bytes(DEFAULT_SEED as int, key_bits(algorithm) / 8))
                && (k.spec_key_id() matches Some(id) && id.len() == 16 && (config.deterministic ==> id == seeded_bytes(DEFAULT_SEED as int, 16))) && k.spec_label() == Some(
                "Mock RSA Private Key "@ + decimal(key_bits(algorithm)),
            ) && k.spec_usage() == rsa_private_usage() && k.spec_extractable() && !k.spec_sensitive()
                && k.spec_attributes() == Map::<Seq<char>, Seq<u8>>::empty(),
    {
        let bits = algorithm.key_size_bits();
        Ok(MockKey::generated(algorithm, KeyType::Private, bits / 8, "Mock RSA Private Key ", KeyUsage {
            sign: true,
            decrypt: true,
            derive: false,
            verify: false,
            encrypt: false,
            wrap: false,
            unwrap: false,
        }, config))
    }

    /// A new mock RSA public key: `bits / 8` bytes of material.
    pub fn new_rsa_public(algorithm: KeyAlgorithm, config: &MockConfig) -> (r: BackendResult<Self>)
        ensures
            r matches Ok(k) && k.spec_algorithm() == algorithm && k.spec_key_type() == KeyType::Public
                && k.spec_key_data().len() == key_bits(algorithm) / 8 && (config.deterministic
                ==> k.spec_key_data() == seeded_bytes(DEFAULT_SEED as int, key_bits(algorithm) / 8))
                && (k.spec_key_id() matches Some(id) && id.len() == 16 && (config.deterministic ==> id == seeded_bytes(DEFAULT_SEED as int, 16))) && k.spec_label() == Some(
                "Mock RSA Public Key "@ + decimal(key_bits(algorithm)),
            ) && k.spec_usage() == rsa_public_usage() && k.spec_extractable() && !k.spec_sensitive()
                && k.spec_attributes() == Map::<Seq<char>, Seq<u8>>::empty(),
    {
        let bits = algorithm.key_size_bits();
        Ok(MockKey::generated(algorithm, KeyType::Public, bits / 8, "Mock RSA Public Key ", KeyUsage {
            sign: false,
            decrypt: false,
            derive: false,
            verify: true,
            encrypt: true,
            wrap: false,
            unwrap: false,
        }, config))
    }

    /// A new mock ECDSA private key: `bits / 8` bytes of material.
    pub fn new_ecdsa_private(algorithm: KeyAlgorithm, config: &MockConfig) -> (r: BackendResult<Self>)
        ensures
            r matches Ok(k) && k.spec_algorithm() == algorithm && k.spec_key_type() == KeyType::Private
                && k.spec_key_data().len() == key_bits(algorithm) / 8 && (config.deterministic
                ==> k.spec_key_data() == seeded_bytes(DEFAULT_SEED as int, key_bits(algorithm) / 8))
                && (k.spec_key_id() matches Some(id) && id.len() == 16 && (config.deterministic ==> id == seeded_bytes(DEFAULT_SEED as int, 16))) && k.spec_label() == Some(
                "Mock ECDSA Private Key "@ + decimal(key_bits(algorithm)),
            ) && k.spec_usage() == ecdsa_private_usage() && k.spec_extractable() && !k.spec_sensitive()
                && k.spec_attributes() == Map::<Seq<char>, Seq<u8>>::empty(),
    {
        let bits = algorithm.key_size_bits();
        Ok(MockKey::generated(algorithm, KeyType::Private, bits / 8, "Mock ECDSA Private Key ", KeyUsage {
            sign: true,
            decrypt: false,
            derive: true,
            verify: false,
            encrypt: false,
            wrap: false,
            unwrap: false,
        }, config))
    }

    /// A new mock ECDSA public key: an uncompressed point of `2 * (bits / 8)`
    /// bytes.
    pub fn new_ecdsa_public(algorithm: KeyAlgorithm, config: &MockConfig) -> (r: BackendResult<Self>)
        ensures
            r matches Ok(k) && k.spec_algorithm() == algorithm && k.spec_key_type() == KeyType::Public
                && k.spec_key_data().len() == key_bits(algorithm) / 8 * 2 && (config.deterministic
                ==> k.spec_key_data() == seeded_bytes(DEFAULT_SEED as int, key_bits(algorithm) / 8 * 2))
                && (k.spec_key_id() matches Some(id) && id.len() == 16 && (config.deterministic ==> id == seeded_bytes(DEFAULT_SEED as int, 16))) && k.spec_label() == Some(
                "Mock ECDSA Public Key "@ + decimal(key_bits(algorithm)),
            ) && k.spec_usage() == ecdsa_public_usage() && k.spec_extractable() && !k.spec_sensitive()
                && k.spec_attributes() == Map::<Seq<char>, Seq<u8>>::empty(),
    {
        let bits = algorithm.key_size_bits();
        Ok(MockKey::generated(algorithm, KeyType::Public, bits / 8 * 2, "Mock ECDSA Public Key ", KeyUsage {
            sign: false,
            decrypt: false,
            derive: true,
            verify: true,
            encrypt: false,
            wrap: false,
            unwrap: false,
        }, config))
    }

    /// A new mock symmetric key: `bits / 8` bytes of material.
    pub fn new_symmetric(algorithm: KeyAlgorithm, config: &MockConfig) -> (r: BackendResult<Self>)
        ensures
            r matches Ok(k) && k.spec_algorithm() == algorithm && k.spec_key_type() == KeyType::Secret
                && k.spec_key_data().len() == key_bits(algorithm) / 8 && (config.deterministic
                ==> k.spec_key_data() == seeded_bytes(DEFAULT_SEED as int, key_bits(algorithm) / 8))
                && (k.spec_key_id() matches Some(id) && id.len() == 16 && (config.deterministic ==> id == seeded_bytes(DEFAULT_SEED as int, 16))) && k.spec_label() == Some(
                "Mock Symmetric Key "@ + decimal(key_bits(algorithm)),
            ) && k.spec_usage() == symmetric_usage() && k.spec_extractable() && !k.spec_sensitive()
                && k.spec_attributes() == Map::<Seq<char>, Seq<u8>>::empty(),
    {
        let bits = algorithm.key_size_bits();
        Ok(MockKey::generated(algorithm, KeyType::Secret, bits / 8, "Mock Symmetric Key ", KeyUsage {
            sign: false,
            decrypt: true,
            derive: true,
            verify: false,
            encrypt: true,
            wrap: true,
            unwrap: true,
        }, config))
    }

    /// An imported key with the given material and a 16-byte identifier.
    fn imported(
        algorithm: KeyAlgorithm,
        key_type: KeyType,
        key_data: &[u8],
        label: &str,
        usage: KeyUsage,
        config: &MockConfig,
    ) -> (r: Self)
        ensures
            r.spec_algorithm() == algorithm,
            r.spec_key_type() == key_type,
            r.spec_key_data() == key_data@,
            r.spec_key_id() matches Some(id) && id.len() == 16 && (config.deterministic ==> id
                == seeded_bytes(DEFAULT_SEED as int, 16)),
            r.spec_label() == Some(label@),
            r.spec_usage() == usage,
            r.spec_extractable(),
            !r.spec_sensitive(),
            r.spec_attributes() == Map::<Seq<char>, Seq<u8>>::empty(),
    {
        let key_id = seeded_or_random(config.deterministic, DEFAULT_SEED, 16);
        MockKey::fresh(
            algorithm,
            key_type,
            vstd::slice::slice_to_vec(key_data),
            Some(key_id),
            String::from_str(label),
            usage,
        )
    }

    /// Import a symmetric key from raw bytes.
    pub fn import_symmetric(algorithm: KeyAlgorithm, key_data: &[u8], config: &MockConfig) -> (r: BackendResult<Self>)
        ensures
            r matches Ok(k) && k.spec_algorithm() == algorithm && k.spec_key_type() == KeyType::Secret
                && k.spec_key_data() == key_data@ && (k.spec_key_id() matches Some(id) && id.len() == 16 && (config.deterministic ==> id == seeded_bytes(DEFAULT_SEED as int, 16)))
                && k.spec_label() == Some("Imported Symmetric Key"@) && k.spec_usage() == symmetric_usage()
                && k.spec_extractable() && !k.spec_sensitive() && k.spec_attributes() == Map::<
                Seq<char>,
                Seq<u8>,
            >::empty(),
    {
        Ok(MockKey::imported(algorithm, KeyType::Secret, key_data, "Imported Symmetric Key", KeyUsage {
            sign: false,
            decrypt: true,
            derive: true,
            verify: false,
            encrypt: true,
            wrap: true,
            unwrap: true,
        }, config))
    }

    /// The usage an imported private key gets.
    fn private_usage_for(algorithm: KeyAlgorithm) -> (r: KeyUsage)
        ensures
            r == imported_private_usage(algorithm),
    {
        match algorithm {
            KeyAlgorithm::Rsa2048 | KeyAlgorithm::Rsa3072 | KeyAlgorithm::Rsa4096 => KeyUsage {
                sign: true,
                decrypt: true,
                derive: false,
                verify: false,
                encrypt: false,
                wrap: false,
                unwrap: false,
            },
            KeyAlgorithm::EcdsaP256 | KeyAlgorithm::EcdsaP384 => KeyUsage {
                sign: true,
                decrypt: false,
                derive: true,
                verify: false,
                encrypt: false,
                wrap: false,
                unwrap: false,
            },
            _ => KeyUsage::default(),
        }
    }

    /// The usage an imported or derived public key gets.
    fn public_usage_for(algorithm: KeyAlgorithm) -> (r: KeyUsage)
        ensures
            r == imported_public_usage(algorithm),
    {
        match algorithm {
            KeyAlgorithm::Rsa2048 | KeyAlgorithm::Rsa3072 | KeyAlgorithm::Rsa4096 => KeyUsage {
                sign: false,
                decrypt: false,
                derive: false,
                verify: true,
                encrypt: true,
                wrap: false,
                unwrap: false,
            },
            KeyAlgorithm::EcdsaP256 | KeyAlgorithm::EcdsaP384 => KeyUsage {
                sign: false,
                decrypt: false,
                derive: true,
                verify: true,
                encrypt: false,
                wrap: false,
                unwrap: false,
            },
            _ => KeyUsage::default(),
        }
    }

    /// Import a private key from raw bytes.
    pub fn import_private(algorithm: KeyAlgorithm, key_data: &[u8], config: &MockConfig) -> (r: BackendResult<Self>)
        ensures
            r matches Ok(k) && k.spec_algorithm() == algorithm && k.spec_key_type() == KeyType::Private
                && k.spec_key_data() == key_data@ && (k.spec_key_id() matches Some(id) && id.len() == 16 && (config.deterministic ==> id == seeded_bytes(DEFAULT_SEED as int, 16)))
                && k.spec_label() == Some("Imported Private Key"@) && k.spec_usage() == imported_private_usage(
                algorithm,
            ) && k.spec_extractable() && !k.spec_sensitive() && k.spec_attributes() == Map::<
                Seq<char>,
                Seq<u8>,
            >::empty(),
            alg_is_rsa(algorithm) && 2048 <= key_bits(algorithm) <= 4096 ==> (r matches Ok(k) && k.spec_usage().sign
                && k.spec_usage().decrypt),
    {
        let usage = MockKey::private_usage_for(algorithm);
        Ok(MockKey::imported(algorithm, KeyType::Private, key_data, "Imported Private Key", usage, config))
    }

    /// Import a public key from raw bytes.
    pub fn import_public(algorithm: KeyAlgorithm, key_data: &[u8], config: &MockConfig) -> (r: BackendResult<Self>)
        ensures
            r matches Ok(k) && k.spec_algorithm() == algorithm && k.spec_key_type() == KeyType::Public
                && k.spec_key_data() == key_data@ && (k.spec_key_id() matches Some(id) && id.len() == 16 && (config.deterministic ==> id == seeded_bytes(DEFAULT_SEED as int, 16)))
                && k.spec_label() == Some("Imported Public Key"@) && k.spec_usage() == imported_public_usage(
                algorithm,
            ) && k.spec_extractable() && !k.spec_sensitive() && k.spec_attributes() == Map::<
                Seq<char>,
                Seq<u8>,
            >::empty(),
    {
        let usage = MockKey::public_usage_for(algorithm);
        Ok(MockKey::imported(algorithm, KeyType::Public, key_data, "Imported Public Key", usage, config))
    }

    /// Derive the mock public key of a private key: its material is the
    /// private material with each byte incremented (wrapping); the identifier
    /// is kept. A key that is not private is refused.
    pub fn derive_public_from_private(private_key: &MockKey) -> (r: BackendResult<Self>)
        ensures
            private_key.spec_key_type() != KeyType::Private ==> (r matches Err(BackendError::InvalidKeyData(m))
                && m@ == "Not a private key"@),
            private_key.spec_key_type() == KeyType::Private ==> (r matches Ok(k) && k.spec_algorithm()
                == private_key.spec_algorithm() && k.spec_key_type() == KeyType::Public && k.spec_key_data()
                == bumped(private_key.spec_key_data()) && k.spec_key_id() == private_key.spec_key_id()
                && k.spec_label() == Some("Derived Public Key"@) && k.spec_usage() == imported_public_usage(
                private_key.spec_algorithm(),
            ) && k.spec_extractable() && !k.spec_sensitive() && k.spec_attributes() == Map::<
                Seq<char>,
                Seq<u8>,
            >::empty()),
    {
        if private_key.key_type != KeyType::Private {
            return Err(BackendError::InvalidKeyData(String::from_str("Not a private key")));
        }
        let public_key_data = bump_bytes(private_key.key_data.as_slice());
        let usage = MockKey::public_usage_for(private_key.algorithm);
        let key_id = match &private_key.key_id {
            Some(id) => Some(vstd::slice::slice_to_vec(id.as_slice())),
            None => None,
        };
        Ok(MockKey::fresh(
            private_key.algorithm,
            KeyType::Public,
            public_key_data,
            key_id,
            String::from_str("Derived Public Key"),
            usage,
        ))
    }

    /// The raw key material.
    pub fn key_data(&self) -> (r: &[u8])
        ensures
            r@ == self.spec_key_data(),
    {
        self.key_data.as_slice()
    }

    /// A copy of the key.
    pub fn duplicate(&self) -> (r: Self)
        ensures
            same_key(r, *self),
    {
        proof {
            use_type_invariant(self);
        }
        let key_id = match &self.key_id {
            Some(id) => Some(vstd::slice::slice_to_vec(id.as_slice())),
            None => None,
        };
        let label = match &self.label {
            Some(l) => Some(l.clone()),
            None => None,
        };
        MockKey {
            algorithm: self.algorithm,
            key_type: self.key_type,
            key_data: vstd::slice::slice_to_vec(self.key_data.as_slice()),
            key_id,
            label,
            usage: self.usage,
            extractable: self.extractable,
            sensitive: self.sensitive,
            attributes: copy_attrs(&self.attributes),
        }
    }
}

/// Two keys that agree in everything observable.
pub open spec fn same_key(a: MockKey, b: MockKey) -> bool {
    &&& a.spec_algorithm() == b.spec_algorithm()
    &&& a.spec_key_type() == b.spec_key_type()
    &&& a.spec_key_data() == b.spec_key_data()
    &&& a.spec_key_id() == b.spec_key_id()
    &&& a.spec_label() == b.spec_label()
    &&& a.spec_usage() == b.spec_usage()
    &&& a.spec_extractable() == b.spec_extractable()
    &&& a.spec_sensitive() == b.spec_sensitive()
    &&& a.spec_attributes() == b.spec_attributes()
}

/// The mock public part of a key: the material of a public key, the bumped
/// material of a private key, none for a secret key.
pub open spec fn mock_public_part(t: KeyType, data: Seq<u8>) -> Option<Seq<u8>> {
    match t {
        KeyType::Public => Some(data),
        KeyType::Private => Some(bumped(data)),
        KeyType::Secret => None,
    }
}

impl Key for MockKey {
    closed spec fn spec_algorithm(&self) -> KeyAlgorithm {
        self.algorithm
    }

    closed spec fn spec_key_type(&self) -> KeyType {
        self.key_type
    }

    closed spec fn spec_usage(&self) -> KeyUsage {
        self.usage
    }

    closed spec fn spec_extractable(&self) -> bool {
        self.extractable
    }

    closed spec fn spec_sensitive(&self) -> bool {
        self.sensitive
    }

    closed spec fn spec_attributes(&self) -> Map<Seq<char>, Seq<u8>> {
        attr_map(self.attributes@)
    }

    fn algorithm(&self) -> (r: KeyAlgorithm) {
        self.algorithm
    }

    fn key_type(&self) -> (r: KeyType) {
        self.key_type
    }

    fn key_size(&self) -> (r: usize) {
        self.algorithm.key_size_bits()
    }

    fn key_id(&self) -> (r: Option<&[u8]>)
        ensures
            r matches Some(s) ==> self.spec_key_id() == Some(s@),
            r is None ==> self.spec_key_id() is None,
    {
        match &self.key_id {
            Some(v) => Some(v.as_slice()),
            None => None,
        }
    }

    fn label(&self) -> (r: Option<&str>)
        ensures
            r matches Some(s) ==> self.spec_label() == Some(s@),
            r is None ==> self.spec_label() is None,
    {
        match &self.label {
            Some(s) => Some(s.as_str()),
            None => None,
        }
    }

    fn usage(&self) -> (r: KeyUsage) {
        self.usage
    }

    fn is_extractable(&self) -> (r: bool) {
        self.extractable
    }

    fn is_sensitive(&self) -> (r: bool) {
        self.sensitive
    }

    /// The key material, when extractable and not sensitive.
    fn export_key(&self) -> (r: BackendResult<Vec<u8>>)
        ensures
            self.spec_extractable() && !self.spec_sensitive() ==> (r matches Ok(v) && v@ == self.spec_key_data()),
    {
        if !self.extractable {
            return Err(BackendError::KeyNotExtractable);
        }
        if self.sensitive {
            return Err(BackendError::KeySensitive);
        }
        Ok(vstd::slice::slice_to_vec(self.key_data.as_slice()))
    }

    /// The public part: the material of a public key, the material with each
    /// byte incremented for a private key; refused for a secret key.
    fn export_public_key(&self) -> (r: BackendResult<Vec<u8>>)
        ensures
            mock_public_part(self.spec_key_type(), self.spec_key_data()) matches Some(p) ==> (r matches Ok(v)
                && v@ == p),
            self.spec_key_type() == KeyType::Secret ==> (r matches Err(BackendError::InvalidKey(m)) && m@
                == "Symmetric keys don't have public components"@),
    {
        match self.key_type {
            KeyType::Public => Ok(vstd::slice::slice_to_vec(self.key_data.as_slice())),
            KeyType::Private => Ok(bump_bytes(self.key_data.as_slice())),
            KeyType::Secret => Err(
                BackendError::InvalidKey(String::from_str("Symmetric keys don't have public components")),
            ),
        }
    }

    fn attributes(&self) -> (r: Vec<(String, Vec<u8>)>) {
        proof {
            use_type_invariant(self);
        }
        copy_attrs(&self.attributes)
    }

    /// Read-only attributes are refused with the message
    /// `Attribute <name> is read-only`.
    fn set_attribute(&mut self, name: &str, value: Vec<u8>) -> (r: BackendResult<()>)
        ensures
            read_only_attribute(name@) ==> (r matches Err(BackendError::ReadOnlyAttribute(m)) && m@
                == "Attribute "@ + name@ + " is read-only"@),
            !read_only_attribute(name@) ==> r is Ok,
            final(self).spec_key_data() == old(self).spec_key_data(),
            final(self).spec_key_id() == old(self).spec_key_id(),
            final(self).spec_label() == old(self).spec_label(),
    {
        proof {
            use_type_invariant(&*self);
        }
        if is_read_only_attribute(name) {
            let msg = String::from_str("Attribute ").concat(name).concat(" is read-only");
            return Err(BackendError::ReadOnlyAttribute(msg));
        }
        let attrs = copy_attrs(&self.attributes);
        let updated = attrs_insert(attrs, String::from_str(name), value);
        self.attributes = updated;
        Ok(())
    }

    /// The SHA-256 digest of the key material.
    fn fingerprint(&self) -> (r: BackendResult<Vec<u8>>)
        ensures
            r matches Ok(v) && v@ == sha2_sha256(self.spec_key_data()),
    {
        Ok(sha256(self.key_data.as_slice()))
    }
}

/// A mock key pair.
#[derive(Debug)]
pub struct MockKeyPair {
    pub(crate) private: MockKey,
    pub(crate) public: MockKey,
}

impl MockKeyPair {
    /// A key pair of the two keys.
    pub fn new(private_key: MockKey, public_key: MockKey) -> (r: Self)
        ensures
            r.spec_private() == private_key,
            r.spec_public() == public_key,
    {
        MockKeyPair { private: private_key, public: public_key }
    }
}

impl KeyPair for MockKeyPair {
    type K = MockKey;

    closed spec fn spec_private(&self) -> MockKey {
        self.private
    }

    closed spec fn spec_public(&self) -> MockKey {
        self.public
    }

    fn private_key(&self) -> (r: &MockKey) {
        &self.private
    }

    fn public_key(&self) -> (r: &MockKey) {
        let r = &self.public;
        assert(*r == self.spec_public());
        r
    }
}

/// The base64 alphabet: `A-Z`, `a-z`, `0-9`, `+`, `/`.
pub open spec fn b64_char(i: nat) -> char {
    if i < 26 {
        ('A' as nat + i) as char
    } else if i < 52 {
        ('a' as nat + (i - 26)) as char
    } else if i < 62 {
        ('0' as nat + (i - 52)) as char
    } else if i == 62 {
        '+'
    } else {
        '/'
    }
}

/// The four characters that encode a chunk of one to three bytes, with `=`
/// for the positions that the chunk does not fill.
pub open spec fn b64_group(chunk: Seq<u8>) -> Seq<char> {
    let b0 = chunk[0] as nat;
    let b1 = if chunk.len() > 1 { chunk[1] as nat } else { 0 };
    let b2 = if chunk.len() > 2 { chunk[2] as nat } else { 0 };
    seq![
        b64_char(b0 / 4),
        b64_char((b0 % 4) * 16 + b1 / 16),
        if chunk.len() > 1 { b64_char((b1 % 16) * 4 + b2 / 64) } else { '=' },
        if chunk.len() > 2 { b64_char(b2 % 64) } else { '=' },
    ]
}

/// Base64 of `data` appended to `acc`, three bytes at a time; a line break
/// follows every group after which the text's length is a multiple of 76.
pub open spec fn b64_from(acc: Seq<char>, data: Seq<u8>) -> Seq<char>
    decreases data.len(),
{
    if data.len() == 0 {
        acc
    } else {
        let n: int = if data.len() < 3 { data.len() as int } else { 3 };
        let grown = acc + b64_group(data.subrange(0, n));
        let next = if grown.len() % 76 == 0 { grown.push('\n') } else { grown };
        b64_from(next, data.subrange(n, data.len() as int))
    }
}

/// The base64 character of index `i`.
fn b64_push(s: &mut String, i: u8)
    requires
        i < 64,
    ensures
        final(s)@ == old(s)@.push(b64_char(i as nat)),
{
    let c: char = if i < 26 {
        ((65 + i) as u8) as char
    } else if i < 52 {
        ((97 + (i - 26)) as u8) as char
    } else if i < 62 {
        ((48 + (i - 52)) as u8) as char
    } else if i == 62 {
        '+'
    } else {
        '/'
    };
    push_char(s, c);
}

/// Base64 encoding, with a line break after every group that ends at a
/// multiple of 76 characters.
pub fn encode(data: &[u8]) -> (r: String)
    ensures
        r@ == b64_from(Seq::empty(), data@),
{
    let mut result = String::new();
    let mut i: usize = 0;
    proof {
        assert(data@.subrange(0, data@.len() as int) =~= data@);
        assert(result@ =~= Seq::<char>::empty());
    }
    while i < data.len()
        invariant
            0 <= i <= data@.len(),
            b64_from(Seq::empty(), data@) == b64_from(result@, data@.subrange(i as int, data@.len() as int)),
        decreases data@.len() - i,
    {
        let rest = data.len() - i;
        let n: usize = if rest < 3 { rest } else { 3 };
        let b0 = data[i];
        let b1: u8 = if n > 1 { data[i + 1] } else { 0 };
        let b2: u8 = if n > 2 { data[i + 2] } else { 0 };
        let ghost before = result@;
        let ghost tail = data@.subrange(i as int, data@.len() as int);
        let ghost chunk = tail.subrange(0, n as int);
        b64_push(&mut result, b0 / 4);
        b64_push(&mut result, (b0 % 4) * 16 + b1 / 16);
        if n > 1 {
            b64_push(&mut result, (b1 % 16) * 4 + b2 / 64);
        } else {
            push_char(&mut result, '=');
        }
        if n > 2 {
            b64_push(&mut result, b2 % 64);
        } else {
            push_char(&mut result, '=');
        }
        proof {
            assert(chunk[0] == b0);
            assert(n > 1 ==> chunk[1] == b1);
            assert(n > 2 ==> chunk[2] == b2);
            assert(result@ =~= before + b64_group(chunk));
            assert(tail.subrange(n as int, tail.len() as int) =~= data@.subrange(i + n, data@.len() as int));
        }
        if result.as_str().unicode_len() % 76 == 0 {
            push_char(&mut result, '\n');
        }
        i = i + n;
    }
    proof {
        assert(data@.subrange(data@.len() as int, data@.len() as int) =~= Seq::<u8>::empty());
    }
    result
}

/// A mock certificate. Times are seconds since the Unix epoch.
#[derive(Debug)]
pub struct MockCertificate {
    pub(crate) subject: String,
    pub(crate) issuer: String,
    pub(crate) serial_number: Vec<u8>,
    pub(crate) not_before: u64,
    pub(crate) not_after: u64,
    pub(crate) public_key: MockKey,
    pub(crate) der_data: Vec<u8>,
    pub(crate) extensions: Vec<(String, Vec<u8>)>,
}

/// One year in seconds.
pub const ONE_YEAR_SECS: u64 = 31_536_000;

impl MockCertificate {
    /// Extension OIDs are unique.
    #[verifier::type_invariant]
    spec fn well_formed(self) -> bool {
        attrs_unique(self.extensions@)
    }

    /// The DER encoding.
    pub closed spec fn spec_der(&self) -> Seq<u8> {
        self.der_data@
    }

    /// The subject name.
    pub closed spec fn spec_subject(&self) -> Seq<char> {
        self.subject@
    }

    /// The issuer name.
    pub closed spec fn spec_issuer(&self) -> Seq<char> {
        self.issuer@
    }

    /// The serial number.
    pub closed spec fn spec_serial(&self) -> Seq<u8> {
        self.serial_number@
    }

    /// The validity period.
    pub closed spec fn spec_validity(&self) -> (u64, u64) {
        (self.not_before, self.not_after)
    }

    /// The public key.
    pub closed spec fn spec_public_key(&self) -> MockKey {
        self.public_key
    }

    /// "Import" a certificate: the DER bytes are kept as given; the subject,
    /// issuer and key are fixed mock values, the validity runs one year from
    /// now (saturating at the end of time).
    pub fn import(cert_data: &[u8], config: &MockConfig) -> (r: BackendResult<Self>)
        ensures
            r matches Ok(c) && c.spec_der() == cert_data@ && c.spec_subject() == "CN=Mock Certificate"@
                && c.spec_issuer() == "CN=Mock CA"@ && c.spec_serial().len() == 8 && (config.deterministic
                ==> c.spec_serial() == seeded_bytes(DEFAULT_SEED as int, 8)) && c.spec_validity().0
                <= c.spec_validity().1 && c.spec_public_key().spec_algorithm() == KeyAlgorithm::Rsa2048
                && c.spec_public_key().spec_key_type() == KeyType::Public && c.spec_extensions() == Map::<
                Seq<char>,
                Seq<u8>,
            >::empty(),
    {
        let public_key = match MockKey::new_rsa_public(KeyAlgorithm::Rsa2048, config) {
            Ok(k) => k,
            Err(e) => return Err(e),
        };
        let not_before = now_unix_secs();
        let not_after = not_before.saturating_add(ONE_YEAR_SECS);
        let c = MockCertificate {
            subject: String::from_str("CN=Mock Certificate"),
            issuer: String::from_str("CN=Mock CA"),
            serial_number: seeded_or_random(config.deterministic, DEFAULT_SEED, 8),
            not_before,
            not_after,
            public_key,
            der_data: vstd::slice::slice_to_vec(cert_data),
            extensions: Vec::new(),
        };
        proof {
            assert(attr_map(c.extensions@) =~= Map::<Seq<char>, Seq<u8>>::empty());
        }
        Ok(c)
    }
}

impl Certificate for MockCertificate {
    type K = MockKey;

    closed spec fn spec_extensions(&self) -> Map<Seq<char>, Seq<u8>> {
        attr_map(self.extensions@)
    }

    fn subject(&self) -> (r: BackendResult<String>)
        ensures
            r matches Ok(s) && s@ == self.spec_subject(),
    {
        Ok(self.subject.clone())
    }

    fn issuer(&self) -> (r: BackendResult<String>)
        ensures
            r matches Ok(s) && s@ == self.spec_issuer(),
    {
        Ok(self.issuer.clone())
    }

    fn serial_number(&self) -> (r: BackendResult<Vec<u8>>)
        ensures
            r matches Ok(s) && s@ == self.spec_serial(),
    {
        Ok(vstd::slice::slice_to_vec(self.serial_number.as_slice()))
    }

    fn validity(&self) -> (r: BackendResult<(u64, u64)>)
        ensures
            r == Ok::<(u64, u64), BackendError>(self.spec_validity()),
    {
        Ok((self.not_before, self.not_after))
    }

    fn public_key(&self) -> (r: BackendResult<MockKey>)
        ensures
            r matches Ok(k) && same_key(k, self.spec_public_key()),
    {
        Ok(self.public_key.duplicate())
    }

    /// The SHA-1 digest of the DER encoding (computed by AWS-LC).
    fn fingerprint_sha1(&self) -> (r: BackendResult<Vec<u8>>)
        ensures
            r matches Ok(v) && v@ == aws_lc_digest(AwsDigest::Sha1, self.spec_der()),
    {
        Ok(aws_digest(AwsDigest::Sha1, self.der_data.as_slice()))
    }

    /// The SHA-256 digest of the DER encoding.
    fn fingerprint_sha256(&self) -> (r: BackendResult<Vec<u8>>)
        ensures
            r matches Ok(v) && v@ == sha2_sha256(self.spec_der()),
    {
        Ok(sha256(self.der_data.as_slice()))
    }

    fn export_der(&self) -> (r: BackendResult<Vec<u8>>)
        ensures
            r matches Ok(v) && v@ == self.spec_der(),
    {
        Ok(vstd::slice::slice_to_vec(self.der_data.as_slice()))
    }

    /// The DER bytes in base64 between PEM certificate markers.
    fn export_pem(&self) -> (r: BackendResult<String>)
        ensures
            r matches Ok(s) && s@ == "-----BEGIN CERTIFICATE-----\n"@ + b64_from(Seq::empty(), self.spec_der())
                + "\n-----END CERTIFICATE-----\n"@,
    {
        let body = encode(self.der_data.as_slice());
        let pem = String::from_str("-----BEGIN CERTIFICATE-----\n").concat(body.as_str()).concat(
            "\n-----END CERTIFICATE-----\n",
        );
        Ok(pem)
    }

    /// Always `true`: the mock does not check signatures.
    fn verify_signature(&self, issuer_key: &MockKey) -> (r: BackendResult<bool>)
        ensures
            r == Ok::<bool, BackendError>(true),
    {
        Ok(true)
    }

    fn extensions(&self) -> (r: BackendResult<Vec<(String, Vec<u8>)>>)
        ensures
            r is Ok,
    {
        proof {
            use_type_invariant(self);
        }
        Ok(copy_attrs(&self.extensions))
    }

    /// Always `true`: the mock allows every usage.
    fn has_key_usage(&self, usage: KeyUsage) -> (r: BackendResult<bool>)
        ensures
            r == Ok::<bool, BackendError>(true),
    {
        Ok(true)
    }

    /// Version 3.
    fn version(&self) -> (r: BackendResult<u32>)
        ensures
            r == Ok::<u32, BackendError>(3),
    {
        Ok(3)
    }

    fn signature_algorithm(&self) -> (r: BackendResult<String>)
        ensures
            r matches Ok(s) && s@ == "sha256WithRSAEncryption"@,
    {
        Ok(String::from_str("sha256WithRSAEncryption"))
    }

    fn public_key_algorithm(&self) -> (r: BackendResult<KeyAlgorithm>)
        ensures
            r == Ok::<KeyAlgorithm, BackendError>(self.spec_public_key().spec_algorithm()),
    {
        Ok(self.public_key.algorithm())
    }
}

/// The public key that `derive_public_from_private` gives a private key holds
/// exactly the public part that the private key exports.
pub proof fn lemma_derived_public_matches_export(k: MockKey)
    requires
        k.spec_key_type() == KeyType::Private,
    ensures
        mock_public_part(k.spec_key_type(), k.spec_key_data()) == Some(bumped(k.spec_key_data())),
{
}

/// An imported key gets the usage a generated key of its algorithm has: an
/// RSA private key of 2048 to 4096 bits signs and decrypts, its public key
/// verifies and encrypts; an ECDSA P-256 or P-384 private key signs and
/// derives, its public key verifies and derives.
pub proof fn lemma_imported_usage_matches_generated(a: KeyAlgorithm)
    ensures
        alg_is_rsa(a) && 2048 <= key_bits(a) <= 4096 ==> imported_private_usage(a) == rsa_private_usage()
            && imported_public_usage(a) == rsa_public_usage(),
        alg_is_rsa(a) && 2048 <= key_bits(a) <= 4096 ==> imported_private_usage(a).sign
            && imported_private_usage(a).decrypt && imported_public_usage(a).verify && imported_public_usage(a).encrypt,
        (a is EcdsaP256 || a is EcdsaP384) ==> imported_private_usage(a) == ecdsa_private_usage()
            && imported_public_usage(a) == ecdsa_public_usage(),
        (a is EcdsaP256 || a is EcdsaP384) ==> imported_private_usage(a).sign && imported_private_usage(a).derive,
{
}

} // verus!
