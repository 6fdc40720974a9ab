//! AWS-LC keys, key pairs and certificates. Key material is held as bytes:
//! private keys as their PKCS#8 encoding together with their public part.

use vstd::prelude::*;
use crate::clock::now_unix_secs;
use crate::digests::{AwsDigest, aws_digest, aws_lc_digest};
use crate::mock::key::{opt_bytes, opt_chars};
use crate::traits::key::{Certificate, Key, KeyPair, is_read_only_attribute, read_only_attribute};
use crate::types::context::{attr_map, attrs_insert, attrs_unique, copy_attrs};
use crate::types::error::{BackendError, BackendResult};
use crate::types::key::{KeyAlgorithm, KeyType, KeyUsage, key_bits, usage_uniform};

verus! {

/// An RSA key pair: its PKCS#8 encoding and its public modulus.
#[derive(Debug, Clone)]
pub struct RsaKeyPairBytes {
    pub pkcs8: Vec<u8>,
    pub modulus: Vec<u8>,
}

/// The components of an RSA public key.
#[derive(Debug, Clone)]
pub struct RsaPublicKeyComponents {
    pub n: Vec<u8>,
    pub e: Vec<u8>,
}

/// An ECDSA or Ed25519 key pair: its PKCS#8 encoding and its public key.
#[derive(Debug, Clone)]
pub struct PairBytes {
    pub pkcs8: Vec<u8>,
    pub public_key: Vec<u8>,
}

/// The material of an AWS-LC key.
#[derive(Debug, Clone)]
pub enum KeyData {
    RsaKeyPair(RsaKeyPairBytes),
    RsaPublicKey(RsaPublicKeyComponents),
    EcdsaKeyPair(PairBytes),
    /// An ECDSA public key as DER bytes.
    EcdsaPublicKey(Vec<u8>),
    SymmetricKey(Vec<u8>),
    Ed25519KeyPair(PairBytes),
    Ed25519PublicKey(Vec<u8>),
}

/// The public part of the key material, if it has one.
pub open spec fn key_data_public(d: KeyData) -> Option<Seq<u8>> {
    match d {
        KeyData::RsaKeyPair(kp) => Some(kp.modulus@),
        KeyData::RsaPublicKey(c) => Some(c.n@),
        KeyData::EcdsaKeyPair(kp) => Some(kp.public_key@),
        KeyData::EcdsaPublicKey(der) => Some(der@),
        KeyData::Ed25519KeyPair(kp) => Some(kp.public_key@),
        KeyData::Ed25519PublicKey(b) => Some(b@),
        KeyData::SymmetricKey(_) => None,
    }
}

/// The material that may be exported, if the kind of key allows it.
pub open spec fn key_data_exportable(d: KeyData) -> Option<Seq<u8>> {
    match d {
        KeyData::SymmetricKey(b) => Some(b@),
        KeyData::RsaPublicKey(c) => Some(c.n@),
        KeyData::EcdsaPublicKey(der) => Some(der@),
        KeyData::Ed25519PublicKey(b) => Some(b@),
        _ => None,
    }
}

/// An AWS-LC key.
#[derive(Debug)]
pub struct AwsLcKey {
    pub(crate) algorithm: KeyAlgorithm,
    pub(crate) key_type: KeyType,
    pub(crate) key_data: KeyData,
    pub(crate) key_id: Option<Vec<u8>>,
    pub(crate) label: Option<String>,
    pub(crate) usage: KeyUsage,
    pub(crate) extractable: bool,
    pub(crate) sensitive: bool,
    pub(crate) attributes: Vec<(String, Vec<u8>)>,
}

/// A copy of a byte string.
fn copy_bytes(v: &Vec<u8>) -> (r: Vec<u8>)
    ensures
        r@ == v@,
{
    vstd::slice::slice_to_vec(v.as_slice())
}

/// A copy of key material.
fn copy_key_data(d: &KeyData) -> (r: KeyData)
    ensures
        key_data_public(r) == key_data_public(*d),
        key_data_exportable(r) == key_data_exportable(*d),
{
    match d {
        KeyData::RsaKeyPair(kp) => KeyData::RsaKeyPair(
            RsaKeyPairBytes { pkcs8: copy_bytes(&kp.pkcs8), modulus: copy_bytes(&kp.modulus) },
        ),
        KeyData::RsaPublicKey(c) => KeyData::RsaPublicKey(
            RsaPublicKeyComponents { n: copy_bytes(&c.n), e: copy_bytes(&c.e) },
        ),
        KeyData::EcdsaKeyPair(kp) => KeyData::EcdsaKeyPair(
            PairBytes { pkcs8: copy_bytes(&kp.pkcs8), public_key: copy_bytes(&kp.public_key) },
        ),
        KeyData::EcdsaPublicKey(der) => KeyData::EcdsaPublicKey(copy_bytes(der)),
        KeyData::SymmetricKey(b) => KeyData::SymmetricKey(copy_bytes(b)),
        KeyData::Ed25519KeyPair(kp) => KeyData::Ed25519KeyPair(
            PairBytes { pkcs8: copy_bytes(&kp.pkcs8), public_key: copy_bytes(&kp.public_key) },
        ),
        KeyData::Ed25519PublicKey(b) => KeyData::Ed25519PublicKey(copy_bytes(b)),
    }
}

impl AwsLcKey {
    /// Attribute names are unique.
    #[verifier::type_invariant]
    spec fn well_formed(self) -> bool {
        attrs_unique(self.attributes@)
    }

    /// The key material.
    pub closed spec fn spec_key_data(&self) -> KeyData {
        self.key_data
    }

    /// The key identifier.
    pub closed spec fn spec_key_id(&self) -> Option<Seq<u8>> {
        opt_bytes(self.key_id)
    }

    /// The label.
    pub closed spec fn spec_label(&self) -> Option<Seq<char>> {
        opt_chars(self.label)
    }

    /// A key with no identifier, label or attributes.
    fn bare(
        algorithm: KeyAlgorithm,
        key_type: KeyType,
        key_data: KeyData,
        usage: KeyUsage,
        extractable: bool,
        sensitive: bool,
    ) -> (r: Self)
        ensures
            r.spec_algorithm() == algorithm,
            r.spec_key_type() == key_type,
            r.spec_key_data() == key_data,
            r.spec_key_id() is None,
            r.spec_label() is None,
            r.spec_usage() == usage,
            r.spec_extractable() == extractable,
            r.spec_sensitive() == sensitive,
            r.spec_attributes() == Map::<Seq<char>, Seq<u8>>::empty(),
    {
        let r = AwsLcKey {
            algorithm,
            key_type,
            key_data,
            key_id: None,
            label: None,
            usage,
            extractable,
            sensitive,
            attributes: Vec::new(),
        };
        proof {
            assert(attr_map(r.attributes@) =~= Map::<Seq<char>, Seq<u8>>::empty());
        }
        r
    }

    /// An RSA key pair key: sign and verify, neither extractable nor
    /// revealable.
    pub fn new_rsa_keypair(key_pair: RsaKeyPairBytes, algorithm: KeyAlgorithm, key_type: KeyType) -> (r: BackendResult<Self>)
        ensures
            r matches Ok(k) && k.spec_algorithm() == algorithm && k.spec_key_type() == key_type && k.spec_key_data()
                == KeyData::RsaKeyPair(key_pair) && k.spec_usage() == (KeyUsage {
                sign: true,
                verify: true,
                ..usage_uniform(false)
            }) && !k.spec_extractable() && k.spec_sensitive() && k.spec_key_id() is None && k.spec_label() is None,
    {
        Ok(AwsLcKey::bare(algorithm, key_type, KeyData::RsaKeyPair(key_pair), KeyUsage::sign_verify(), false, true))
    }

    /// An RSA public key: sign and verify usage, extractable.
    pub fn new_rsa_public_key(components: RsaPublicKeyComponents, algorithm: KeyAlgorithm) -> (r: BackendResult<Self>)
        ensures
            r matches Ok(k) && k.spec_algorithm() == algorithm && k.spec_key_type() == KeyType::Public
                && k.spec_key_data() == KeyData::RsaPublicKey(components) && k.spec_usage() == (KeyUsage {
                sign: true,
                verify: true,
                ..usage_uniform(false)
            }) && k.spec_extractable() && !k.spec_sensitive(),
    {
        Ok(
            AwsLcKey::bare(
                algorithm,
                KeyType::Public,
                KeyData::RsaPublicKey(components),
                KeyUsage::sign_verify(),
                true,
                false,
            ),
        )
    }

    /// An ECDSA key pair key: sign and verify, neither extractable nor
    /// revealable.
    pub fn new_ecdsa_keypair(key_pair: PairBytes, algorithm: KeyAlgorithm, key_type: KeyType) -> (r: BackendResult<Self>)
        ensures
            r matches Ok(k) && k.spec_algorithm() == algorithm && k.spec_key_type() == key_type && k.spec_key_data()
                == KeyData::EcdsaKeyPair(key_pair) && k.spec_usage() == (KeyUsage {
                sign: true,
                verify: true,
                ..usage_uniform(false)
            }) && !k.spec_extractable() && k.spec_sensitive(),
    {
        Ok(AwsLcKey::bare(algorithm, key_type, KeyData::EcdsaKeyPair(key_pair), KeyUsage::sign_verify(), false, true))
    }

    /// An ECDSA public key from its DER bytes: extractable.
    pub fn new_ecdsa_public_key(public_key_der: Vec<u8>, algorithm: KeyAlgorithm) -> (r: BackendResult<Self>)
        ensures
            r matches Ok(k) && k.spec_algorithm() == algorithm && k.spec_key_type() == KeyType::Public
                && k.spec_key_data() == KeyData::EcdsaPublicKey(public_key_der) && k.spec_usage() == (KeyUsage {
                sign: true,
                verify: true,
                ..usage_uniform(false)
            }) && k.spec_extractable() && !k.spec_sensitive(),
    {
        Ok(
            AwsLcKey::bare(
                algorithm,
                KeyType::Public,
                KeyData::EcdsaPublicKey(public_key_der),
                KeyUsage::sign_verify(),
                true,
                false,
            ),
        )
    }

    /// A symmetric key: encrypt and decrypt, neither extractable nor
    /// revealable.
    pub fn new_symmetric_key(key_bytes: Vec<u8>, algorithm: KeyAlgorithm) -> (r: BackendResult<Self>)
        ensures
            r matches Ok(k) && k.spec_algorithm() == algorithm && k.spec_key_type() == KeyType::Secret
                && k.spec_key_data() == KeyData::SymmetricKey(key_bytes) && k.spec_usage() == (KeyUsage {
                encrypt: true,
                decrypt: true,
                ..usage_uniform(false)
            }) && !k.spec_extractable() && k.spec_sensitive(),
    {
        Ok(
            AwsLcKey::bare(
                algorithm,
                KeyType::Secret,
                KeyData::SymmetricKey(key_bytes),
                KeyUsage::encrypt_decrypt(),
                false,
                true,
            ),
        )
    }

    /// The key material.
    pub fn key_data(&self) -> (r: &KeyData)
        ensures
            *r == self.spec_key_data(),
    {
        &self.key_data
    }

    /// The key with identifier `key_id`.
    pub fn with_key_id(self, key_id: Vec<u8>) -> (r: Self)
        ensures
            r.spec_key_id() == Some(key_id@),
            r.spec_label() == self.spec_label(),
            r.spec_key_data() == self.spec_key_data(),
            r.spec_usage() == self.spec_usage(),
            r.spec_extractable() == self.spec_extractable(),
            r.spec_sensitive() == self.spec_sensitive(),
    {
        proof {
            use_type_invariant(&self);
        }
        let mut k = self;
        k.key_id = Some(key_id);
        k
    }

    /// The key with label `label`.
    pub fn with_label(self, label: String) -> (r: Self)
        ensures
            r.spec_label() == Some(label@),
            r.spec_key_id() == self.spec_key_id(),
            r.spec_key_data() == self.spec_key_data(),
            r.spec_usage() == self.spec_usage(),
            r.spec_extractable() == self.spec_extractable(),
            r.spec_sensitive() == self.spec_sensitive(),
    {
        proof {
            use_type_invariant(&self);
        }
        let mut k = self;
        k.label = Some(label);
        k
    }

    /// The key with usage `usage`.
    pub fn with_usage(self, usage: KeyUsage) -> (r: Self)
        ensures
            r.spec_usage() == usage,
            r.spec_key_data() == self.spec_key_data(),
            r.spec_extractable() == self.spec_extractable(),
            r.spec_sensitive() == self.spec_sensitive(),
    {
        proof {
            use_type_invariant(&self);
        }
        let mut k = self;
        k.usage = usage;
        k
    }

    /// The key with the extractable flag set to `extractable`.
    pub fn with_extractable(self, extractable: bool) -> (r: Self)
        ensures
            r.spec_extractable() == extractable,
            r.spec_key_data() == self.spec_key_data(),
            r.spec_usage() == self.spec_usage(),
            r.spec_sensitive() == self.spec_sensitive(),
    {
        proof {
            use_type_invariant(&self);
        }
        let mut k = self;
        k.extractable = extractable;
        k
    }

    /// The key with the sensitive flag set to `sensitive`.
    pub fn with_sensitive(self, sensitive: bool) -> (r: Self)
        ensures
            r.spec_sensitive() == sensitive,
            r.spec_key_data() == self.spec_key_data(),
            r.spec_usage() == self.spec_usage(),
            r.spec_extractable() == self.spec_extractable(),
    {
        proof {
            use_type_invariant(&self);
        }
        let mut k = self;
        k.sensitive = sensitive;
        k
    }

    /// A copy of the key.
    pub fn duplicate(&self) -> (r: Self)
        ensures
            r.spec_algorithm() == self.spec_algorithm(),
            r.spec_key_type() == self.spec_key_type(),
            key_data_public(r.spec_key_data()) == key_data_public(self.spec_key_data()),
            key_data_exportable(r.spec_key_data()) == key_data_exportable(self.spec_key_data()),
            r.spec_key_id() == self.spec_key_id(),
            r.spec_label() == self.spec_label(),
            r.spec_usage() == self.spec_usage(),
            r.spec_extractable() == self.spec_extractable(),
            r.spec_sensitive() == self.spec_sensitive(),
            r.spec_attributes() == self.spec_attributes(),
    {
        proof {
            use_type_invariant(self);
        }
        let key_id = match &self.key_id {
            Some(id) => Some(copy_bytes(id)),
            None => None,
        };
        let label = match &self.label {
            Some(l) => Some(l.clone()),
            None => None,
        };
        AwsLcKey {
            algorithm: self.algorithm,
            key_type: self.key_type,
            key_data: copy_key_data(&self.key_data),
            key_id,
            label,
            usage: self.usage,
            extractable: self.extractable,
            sensitive: self.sensitive,
            attributes: copy_attrs(&self.attributes),
        }
    }
}

impl Key for AwsLcKey {
    closed spec fn spec_algorithm(&self) -> KeyAlgorithm {
        self.algorithm
    }

    closed spec fn spec_key_type(&self) -> KeyType {
        self.key_type
    }

    closed spec fn spec_usage(&self) -> KeyUsage {
        self.usage
    }

    closed spec fn spec_extractable(&self) -> bool {
        self.extractable
    }

    closed spec fn spec_sensitive(&self) -> bool {
        self.sensitive
    }

    closed spec fn spec_attributes(&self) -> Map<Seq<char>, Seq<u8>> {
        attr_map(self.attributes@)
    }

    fn algorithm(&self) -> (r: KeyAlgorithm) {
        self.algorithm
    }

    fn key_type(&self) -> (r: KeyType) {
        self.key_type
    }

    fn key_size(&self) -> (r: usize) {
        self.algorithm.key_size_bits()
    }

    fn key_id(&self) -> (r: Option<&[u8]>)
        ensures
            r matches Some(s) ==> self.spec_key_id() == Some(s@),
            r is None ==> self.spec_key_id() is None,
    {
        match &self.key_id {
            Some(v) => Some(v.as_slice()),
            None => None,
        }
    }

    fn label(&self) -> (r: Option<&str>)
        ensures
            r matches Some(s) ==> self.spec_label() == Some(s@),
            r is None ==> self.spec_label() is None,
    {
        match &self.label {
            Some(s) => Some(s.as_str()),
            None => None,
        }
    }

    fn usage(&self) -> (r: KeyUsage) {
        self.usage
    }

    fn is_extractable(&self) -> (r: bool) {
        self.extractable
    }

    fn is_sensitive(&self) -> (r: bool) {
        self.sensitive
    }

    /// The material of a symmetric key or the bytes of a public key, when
    /// extractable and not sensitive; the private part of a key pair is never
    /// exported.
    fn export_key(&self) -> (r: BackendResult<Vec<u8>>)
        ensures
            self.spec_extractable() && !self.spec_sensitive() ==> (match key_data_exportable(self.spec_key_data()) {
                Some(b) => r matches Ok(v) && v@ == b,
                None => r matches Err(BackendError::KeyNotExtractable),
            }),
    {
        if !self.extractable {
            return Err(BackendError::KeyNotExtractable);
        }
        if self.sensitive {
            return Err(BackendError::KeySensitive);
        }
        match &self.key_data {
            KeyData::SymmetricKey(bytes) => Ok(copy_bytes(bytes)),
            KeyData::RsaPublicKey(components) => Ok(copy_bytes(&components.n)),
            KeyData::EcdsaPublicKey(der) => Ok(copy_bytes(der)),
            KeyData::Ed25519PublicKey(bytes) => Ok(copy_bytes(bytes)),
            _ => Err(BackendError::KeyNotExtractable),
        }
    }

    /// The public part: an RSA modulus, an EC point or an Ed25519 key;
    /// refused for a symmetric key.
    fn export_public_key(&self) -> (r: BackendResult<Vec<u8>>)
        ensures
            match key_data_public(self.spec_key_data()) {
                Some(p) => r matches Ok(v) && v@ == p,
                None => r matches Err(BackendError::InvalidKeyData(m)) && m@ == "Not an asymmetric key"@,
            },
    {
        match &self.key_data {
            KeyData::RsaKeyPair(kp) => Ok(copy_bytes(&kp.modulus)),
            KeyData::RsaPublicKey(components) => Ok(copy_bytes(&components.n)),
            KeyData::EcdsaKeyPair(kp) => Ok(copy_bytes(&kp.public_key)),
            KeyData::EcdsaPublicKey(der) => Ok(copy_bytes(der)),
            KeyData::Ed25519KeyPair(kp) => Ok(copy_bytes(&kp.public_key)),
            KeyData::Ed25519PublicKey(bytes) => Ok(copy_bytes(bytes)),
            KeyData::SymmetricKey(_) => Err(BackendError::InvalidKeyData(String::from_str("Not an asymmetric key"))),
        }
    }

    fn attributes(&self) -> (r: Vec<(String, Vec<u8>)>) {
        proof {
            use_type_invariant(self);
        }
        copy_attrs(&self.attributes)
    }

    /// Read-only attributes are refused with the attribute's name as message.
    fn set_attribute(&mut self, name: &str, value: Vec<u8>) -> (r: BackendResult<()>)
        ensures
            read_only_attribute(name@) ==> (r matches Err(BackendError::ReadOnlyAttribute(m)) && m@ == name@),
            !read_only_attribute(name@) ==> r is Ok,
            final(self).spec_key_data() == old(self).spec_key_data(),
    {
        proof {
            use_type_invariant(&*self);
        }
        if is_read_only_attribute(name) {
            return Err(BackendError::ReadOnlyAttribute(String::from_str(name)));
        }
        let attrs = copy_attrs(&self.attributes);
        let updated = attrs_insert(attrs, String::from_str(name), value);
        self.attributes = updated;
        Ok(())
    }

    /// The SHA-256 digest (by AWS-LC) of the public part; refused for a
    /// symmetric key as `export_public_key` refuses it.
    fn fingerprint(&self) -> (r: BackendResult<Vec<u8>>)
        ensures
            match key_data_public(self.spec_key_data()) {
                Some(p) => r matches Ok(v) && v@ == aws_lc_digest(AwsDigest::Sha256, p),
                None => r matches Err(BackendError::InvalidKeyData(_)),
            },
    {
        let public_key_data = match self.export_public_key() {
            Ok(d) => d,
            Err(e) => return Err(e),
        };
        Ok(aws_digest(AwsDigest::Sha256, public_key_data.as_slice()))
    }
}

/// An AWS-LC key pair.
#[derive(Debug)]
pub struct AwsLcKeyPair {
    pub(crate) private: AwsLcKey,
    pub(crate) public: AwsLcKey,
}

impl AwsLcKeyPair {
    /// A key pair of the two keys.
    pub fn new(private_key: AwsLcKey, public_key: AwsLcKey) -> (r: Self)
        ensures
            r.spec_private() == private_key,
            r.spec_public() == public_key,
    {
        AwsLcKeyPair { private: private_key, public: public_key }
    }
}

impl KeyPair for AwsLcKeyPair {
    type K = AwsLcKey;

    closed spec fn spec_private(&self) -> AwsLcKey {
        self.private
    }

    closed spec fn spec_public(&self) -> AwsLcKey {
        self.public
    }

    fn private_key(&self) -> (r: &AwsLcKey) {
        let r = &self.private;
        assert(*r == self.spec_private());
        r
    }

    fn public_key(&self) -> (r: &AwsLcKey) {
        let r = &self.public;
        assert(*r == self.spec_public());
        r
    }
}

/// An AWS-LC certificate; the DER bytes are kept but not parsed.
#[derive(Debug)]
pub struct AwsLcCertificate {
    pub(crate) cert_data: Vec<u8>,
    pub(crate) public_key: AwsLcKey,
}

impl AwsLcCertificate {
    /// A certificate of the given DER bytes and key.
    pub fn new(cert_data: Vec<u8>, public_key: AwsLcKey) -> (r: Self)
        ensures
            r.spec_der() == cert_data@,
            r.spec_public_key() == public_key,
    {
        AwsLcCertificate { cert_data, public_key }
    }

    /// The DER encoding.
    pub closed spec fn spec_der(&self) -> Seq<u8> {
        self.cert_data@
    }

    /// The public key.
    pub closed spec fn spec_public_key(&self) -> AwsLcKey {
        self.public_key
    }
}

impl Certificate for AwsLcCertificate {
    type K = AwsLcKey;

    closed spec fn spec_extensions(&self) -> Map<Seq<char>, Seq<u8>> {
        Map::empty()
    }

    /// A fixed subject: the DER bytes are not parsed.
    fn subject(&self) -> (r: BackendResult<String>)
        ensures
            r matches Ok(s) && s@ == "CN=Placeholder"@,
    {
        Ok(String::from_str("CN=Placeholder"))
    }

    /// A fixed issuer: the DER bytes are not parsed.
    fn issuer(&self) -> (r: BackendResult<String>)
        ensures
            r matches Ok(s) && s@ == "CN=Placeholder Issuer"@,
    {
        Ok(String::from_str("CN=Placeholder Issuer"))
    }

    /// A fixed serial number: the DER bytes are not parsed.
    fn serial_number(&self) -> (r: BackendResult<Vec<u8>>)
        ensures
            r matches Ok(s) && s@ == seq![1u8, 2u8, 3u8, 4u8],
    {
        let mut v: Vec<u8> = Vec::new();
        v.push(1);
        v.push(2);
        v.push(3);
        v.push(4);
        Ok(v)
    }

    /// One year from now (saturating at the end of time).
    fn validity(&self) -> (r: BackendResult<(u64, u64)>)
        ensures
            r matches Ok(p) && p.0 <= p.1 && p.1 == (if p.0 + crate::mock::key::ONE_YEAR_SECS <= u64::MAX {
                p.0 + crate::mock::key::ONE_YEAR_SECS
            } else {
                u64::MAX as int
            }),
    {
        let now = now_unix_secs();
        Ok((now, now.saturating_add(crate::mock::key::ONE_YEAR_SECS)))
    }

    fn public_key(&self) -> (r: BackendResult<AwsLcKey>)
        ensures
            r matches Ok(k) && k.spec_algorithm() == self.spec_public_key().spec_algorithm() && key_data_public(
                k.spec_key_data(),
            ) == key_data_public(self.spec_public_key().spec_key_data()),
    {
        Ok(self.public_key.duplicate())
    }

    /// The SHA-1 digest (by AWS-LC) of the DER bytes.
    fn fingerprint_sha1(&self) -> (r: BackendResult<Vec<u8>>)
        ensures
            r matches Ok(v) && v@ == aws_lc_digest(AwsDigest::Sha1, self.spec_der()),
    {
        Ok(aws_digest(AwsDigest::Sha1, self.cert_data.as_slice()))
    }

    /// The SHA-256 digest (by AWS-LC) of the DER bytes.
    fn fingerprint_sha256(&self) -> (r: BackendResult<Vec<u8>>)
        ensures
            r matches Ok(v) && v@ == aws_lc_digest(AwsDigest::Sha256, self.spec_der()),
    {
        Ok(aws_digest(AwsDigest::Sha256, self.cert_data.as_slice()))
    }

    fn export_der(&self) -> (r: BackendResult<Vec<u8>>)
        ensures
            r matches Ok(v) && v@ == self.spec_der(),
    {
        Ok(copy_bytes(&self.cert_data))
    }

    /// A fixed PEM skeleton: the DER bytes are not encoded.
    fn export_pem(&self) -> (r: BackendResult<String>)
        ensures
            r matches Ok(s) && s@ == "-----BEGIN CERTIFICATE-----\n...\n-----END CERTIFICATE-----"@,
    {
        Ok(String::from_str("-----BEGIN CERTIFICATE-----\n...\n-----END CERTIFICATE-----"))
    }

    /// Always `true`: signatures are not checked.
    fn verify_signature(&self, issuer_key: &AwsLcKey) -> (r: BackendResult<bool>)
        ensures
            r == Ok::<bool, BackendError>(true),
    {
        Ok(true)
    }

    /// No extensions.
    fn extensions(&self) -> (r: BackendResult<Vec<(String, Vec<u8>)>>)
        ensures
            r is Ok,
    {
        let v: Vec<(String, Vec<u8>)> = Vec::new();
        proof {
            assert(attr_map(v@) =~= Map::<Seq<char>, Seq<u8>>::empty());
        }
        Ok(v)
    }

    /// Always `true`: key usage is not checked.
    fn has_key_usage(&self, usage: KeyUsage) -> (r: BackendResult<bool>)
        ensures
            r == Ok::<bool, BackendError>(true),
    {
        Ok(true)
    }

    /// Version 3.
    fn version(&self) -> (r: BackendResult<u32>)
        ensures
            r == Ok::<u32, BackendError>(3),
    {
        Ok(3)
    }

    fn signature_algorithm(&self) -> (r: BackendResult<String>)
        ensures
            r matches Ok(s) && s@ == "sha256WithRSAEncryption"@,
    {
        Ok(String::from_str("sha256WithRSAEncryption"))
    }

    fn public_key_algorithm(&self) -> (r: BackendResult<KeyAlgorithm>)
        ensures
            r == Ok::<KeyAlgorithm, BackendError>(self.spec_public_key().spec_algorithm()),
    {
        Ok(self.public_key.algorithm())
    }
}

} // verus!
