//! Keys, key pairs and certificates.

use vstd::prelude::*;
use crate::clock::now_unix_secs;
use crate::types::context::{attr_map, attrs_get, attrs_unique};
use crate::types::error::{BackendError, BackendResult};
use crate::types::key::{KeyAlgorithm, KeyType, KeyUsage, key_bits};

verus! {

/// Attributes that a key refuses to change.
pub open spec fn read_only_attribute(name: Seq<char>) -> bool {
    name == "CKA_CLASS"@ || name == "CKA_KEY_TYPE"@ || name == "CKA_MODULUS"@ || name == "CKA_PUBLIC_EXPONENT"@
}

/// Whether `name` is one of the read-only attributes.
pub fn is_read_only_attribute(name: &str) -> (r: bool)
    ensures
        r == read_only_attribute(name@),
{
    crate::text::str_is(name, "CKA_CLASS") || crate::text::str_is(name, "CKA_KEY_TYPE")
        || crate::text::str_is(name, "CKA_MODULUS") || crate::text::str_is(name, "CKA_PUBLIC_EXPONENT")
}

/// A cryptographic key.
pub trait Key: Sized {
    /// The key's algorithm.
    spec fn spec_algorithm(&self) -> KeyAlgorithm;

    /// Whether the key is public, private or secret.
    spec fn spec_key_type(&self) -> KeyType;

    /// What the key may be used for.
    spec fn spec_usage(&self) -> KeyUsage;

    /// Whether the key material may be exported.
    spec fn spec_extractable(&self) -> bool;

    /// Whether the key material must not be revealed.
    spec fn spec_sensitive(&self) -> bool;

    /// The key's attributes.
    spec fn spec_attributes(&self) -> Map<Seq<char>, Seq<u8>>;

    /// The key's algorithm.
    fn algorithm(&self) -> (r: KeyAlgorithm)
        ensures
            r == self.spec_algorithm(),
    ;

    /// Whether the key is public, private or secret.
    fn key_type(&self) -> (r: KeyType)
        ensures
            r == self.spec_key_type(),
    ;

    /// The key size in bits.
    fn key_size(&self) -> (r: usize)
        ensures
            r == key_bits(self.spec_algorithm()),
    ;

    /// The key's identifier, if any.
    fn key_id(&self) -> Option<&[u8]>;

    /// The key's label, if any.
    fn label(&self) -> Option<&str>;

    /// What the key may be used for.
    fn usage(&self) -> (r: KeyUsage)
        ensures
            r == self.spec_usage(),
    ;

    /// Whether the key may sign.
    fn can_sign(&self) -> (r: bool)
        ensures
            r == self.spec_usage().sign,
    {
        self.usage().sign
    }

    /// Whether the key may verify.
    fn can_verify(&self) -> (r: bool)
        ensures
            r == self.spec_usage().verify,
    {
        self.usage().verify
    }

    /// Whether the key may encrypt.
    fn can_encrypt(&self) -> (r: bool)
        ensures
            r == self.spec_usage().encrypt,
    {
        self.usage().encrypt
    }

    /// Whether the key may decrypt.
    fn can_decrypt(&self) -> (r: bool)
        ensures
            r == self.spec_usage().decrypt,
    {
        self.usage().decrypt
    }

    /// Whether the key may derive keys.
    fn can_derive(&self) -> (r: bool)
        ensures
            r == self.spec_usage().derive,
    {
        self.usage().derive
    }

    /// Whether the key may wrap keys.
    fn can_wrap(&self) -> (r: bool)
        ensures
            r == self.spec_usage().wrap,
    {
        self.usage().wrap
    }

    /// Whether the key may unwrap keys.
    fn can_unwrap(&self) -> (r: bool)
        ensures
            r == self.spec_usage().unwrap,
    {
        self.usage().unwrap
    }

    /// Whether the key material may be exported.
    fn is_extractable(&self) -> (r: bool)
        ensures
            r == self.spec_extractable(),
    ;

    /// Whether the key material must not be revealed.
    fn is_sensitive(&self) -> (r: bool)
        ensures
            r == self.spec_sensitive(),
    ;

    /// Whether the key lives in hardware (no, unless an implementation says so).
    fn is_hardware(&self) -> (r: bool)
        default_ensures
            !r,
    {
        false
    }

    /// Whether the key is a persistent token object (no, unless an
    /// implementation says so).
    fn is_token(&self) -> (r: bool)
        default_ensures
            !r,
    {
        false
    }

    /// Export the key material: refused for a key that is not extractable,
    /// then for a sensitive one.
    fn export_key(&self) -> (r: BackendResult<Vec<u8>>)
        ensures
            !self.spec_extractable() ==> r matches Err(BackendError::KeyNotExtractable),
            self.spec_extractable() && self.spec_sensitive() ==> r matches Err(BackendError::KeySensitive),
    ;

    /// Export the public part of an asymmetric key.
    fn export_public_key(&self) -> BackendResult<Vec<u8>>;

    /// Export in the standard format: the public part of a public key, the key
    /// material of a private or secret key.
    fn export_standard_format(&self) -> (r: BackendResult<Vec<u8>>)
        ensures
            self.spec_key_type() != KeyType::Public && !self.spec_extractable() ==> r matches Err(
                BackendError::KeyNotExtractable,
            ),
            self.spec_key_type() != KeyType::Public && self.spec_extractable() && self.spec_sensitive()
                ==> r matches Err(BackendError::KeySensitive),
    {
        match self.key_type() {
            KeyType::Public => self.export_public_key(),
            KeyType::Private | KeyType::Secret => self.export_key(),
        }
    }

    /// The key's attributes, each name once.
    fn attributes(&self) -> (r: Vec<(String, Vec<u8>)>)
        ensures
            attrs_unique(r@),
            attr_map(r@) == self.spec_attributes(),
    ;

    /// Set attribute `name` to `value`; the read-only attributes are refused
    /// with `ReadOnlyAttribute`. On success the attribute holds `value`; on
    /// failure the key is left as it was.
    fn set_attribute(&mut self, name: &str, value: Vec<u8>) -> (r: BackendResult<()>)
        ensures
            read_only_attribute(name@) ==> r matches Err(BackendError::ReadOnlyAttribute(_)),
            r is Ok ==> final(self).spec_attributes() == old(self).spec_attributes().insert(name@, value@),
            r is Err ==> final(self).spec_attributes() == old(self).spec_attributes(),
            final(self).spec_algorithm() == old(self).spec_algorithm(),
            final(self).spec_key_type() == old(self).spec_key_type(),
            final(self).spec_usage() == old(self).spec_usage(),
            final(self).spec_extractable() == old(self).spec_extractable(),
            final(self).spec_sensitive() == old(self).spec_sensitive(),
    ;

    /// The value of attribute `name`, if set.
    fn get_attribute(&self, name: &str) -> (r: Option<Vec<u8>>)
        ensures
            r matches Some(v) ==> self.spec_attributes().contains_key(name@) && v@ == self.spec_attributes()[name@],
            r is None ==> !self.spec_attributes().contains_key(name@),
    {
        let attrs = self.attributes();
        attrs_get(&attrs, name)
    }

    /// Whether attribute `name` is set.
    fn has_attribute(&self, name: &str) -> (r: bool)
        ensures
            r == self.spec_attributes().contains_key(name@),
    {
        let attrs = self.attributes();
        attrs_get(&attrs, name).is_some()
    }

    /// A fingerprint of the key (a SHA-256 digest).
    fn fingerprint(&self) -> BackendResult<Vec<u8>>;

    /// A copy of the key, where the implementation offers one; by default
    /// cloning is not supported.
    fn clone_key(&self) -> (r: BackendResult<Self>)
        ensures
            r matches Err(BackendError::UnsupportedOperation(m)) && m@ == "Key cloning not supported"@,
    {
        Err(BackendError::UnsupportedOperation(String::from_str("Key cloning not supported")))
    }
}

/// An asymmetric key pair.
pub trait KeyPair {
    /// The type of the two keys.
    type K: Key;

    /// The private key.
    spec fn spec_private(&self) -> Self::K;

    /// The public key.
    spec fn spec_public(&self) -> Self::K;

    /// The private key.
    fn private_key(&self) -> (r: &Self::K)
        ensures
            *r == self.spec_private(),
    ;

    /// The public key.
    fn public_key(&self) -> (r: &Self::K)
        ensures
            *r == self.spec_public(),
    ;

    /// The algorithm of the private key.
    fn algorithm(&self) -> (r: KeyAlgorithm)
        ensures
            r == self.spec_private().spec_algorithm(),
    {
        self.private_key().algorithm()
    }

    /// The key size of the private key, in bits.
    fn key_size(&self) -> (r: usize)
        ensures
            r == key_bits(self.spec_private().spec_algorithm()),
    {
        self.private_key().key_size()
    }

    /// The identifier of the private key.
    fn key_id(&self) -> Option<&[u8]> {
        self.private_key().key_id()
    }

    /// The label of the private key.
    fn label(&self) -> Option<&str> {
        self.private_key().label()
    }

    /// The public key in its standard format.
    fn export_public_key_info(&self) -> BackendResult<Vec<u8>> {
        self.public_key().export_standard_format()
    }

    /// The private key in its standard format.
    fn export_private_key_info(&self) -> (r: BackendResult<Vec<u8>>)
        ensures
            self.spec_private().spec_key_type() != KeyType::Public && !self.spec_private().spec_extractable()
                ==> r matches Err(BackendError::KeyNotExtractable),
    {
        self.private_key().export_standard_format()
    }

    /// Both keys in their standard formats, private first; fails where either
    /// export fails, the private one first.
    fn export_keypair(&self) -> (r: BackendResult<(Vec<u8>, Vec<u8>)>)
        ensures
            self.spec_private().spec_key_type() != KeyType::Public && !self.spec_private().spec_extractable()
                ==> r matches Err(BackendError::KeyNotExtractable),
    {
        let private_data = match self.export_private_key_info() {
            Ok(d) => d,
            Err(e) => return Err(e),
        };
        let public_data = match self.export_public_key_info() {
            Ok(d) => d,
            Err(e) => return Err(e),
        };
        Ok((private_data, public_data))
    }

    /// The fingerprint of the public key.
    fn fingerprint(&self) -> BackendResult<Vec<u8>> {
        self.public_key().fingerprint()
    }

    /// Whether the private key may be exported.
    fn is_private_extractable(&self) -> (r: bool)
        ensures
            r == self.spec_private().spec_extractable(),
    {
        self.private_key().is_extractable()
    }

    /// Whether the private key is sensitive.
    fn is_private_sensitive(&self) -> (r: bool)
        ensures
            r == self.spec_private().spec_sensitive(),
    {
        self.private_key().is_sensitive()
    }

    /// Whether either key lives in hardware.
    fn is_hardware(&self) -> (r: bool)
        ensures
            r ==> call_ensures(Self::K::is_hardware, (&self.spec_private(),), true) || call_ensures(
                Self::K::is_hardware,
                (&self.spec_public(),),
                true,
            ),
            !r ==> call_ensures(Self::K::is_hardware, (&self.spec_private(),), false) && call_ensures(
                Self::K::is_hardware,
                (&self.spec_public(),),
                false,
            ),
    {
        self.private_key().is_hardware() || self.public_key().is_hardware()
    }
}

/// The OID of the Basic Constraints extension.
pub open spec fn basic_constraints_oid() -> Seq<char> {
    "2.5.29.19"@
}

/// An X.509 certificate. Times are seconds since the Unix epoch.
pub trait Certificate {
    /// The type of the certificate's public key.
    type K: Key;

    /// The certificate's extensions, by OID.
    spec fn spec_extensions(&self) -> Map<Seq<char>, Seq<u8>>;

    /// The subject name.
    fn subject(&self) -> BackendResult<String>;

    /// The issuer name.
    fn issuer(&self) -> BackendResult<String>;

    /// The serial number.
    fn serial_number(&self) -> BackendResult<Vec<u8>>;

    /// The validity period `(not_before, not_after)`.
    fn validity(&self) -> BackendResult<(u64, u64)>;

    /// The certificate's public key.
    fn public_key(&self) -> BackendResult<Self::K>;

    /// The SHA-1 fingerprint.
    fn fingerprint_sha1(&self) -> BackendResult<Vec<u8>>;

    /// The SHA-256 fingerprint.
    fn fingerprint_sha256(&self) -> BackendResult<Vec<u8>>;

    /// The DER encoding.
    fn export_der(&self) -> BackendResult<Vec<u8>>;

    /// The PEM encoding.
    fn export_pem(&self) -> BackendResult<String>;

    /// Whether the signature verifies under the issuer's key.
    fn verify_signature(&self, issuer_key: &Self::K) -> BackendResult<bool>;

    /// Whether the current time lies within the validity period (bounds
    /// included). The time is read from the clock, so of a period the
    /// result says only what holds at some time: `true` needs a period that
    /// is not empty, `false` one that does not cover all times.
    fn is_valid(&self) -> (r: BackendResult<bool>)
        ensures
            r matches Err(e) ==> call_ensures(Self::validity, (self,), Err::<(u64, u64), BackendError>(e)),
            r matches Ok(b) ==> exists|p: (u64, u64)|
                #[trigger] call_ensures(Self::validity, (self,), Ok::<(u64, u64), BackendError>(p)) && (b ==> p.0
                    <= p.1) && (!b ==> !(p.0 == 0 && p.1 == u64::MAX)),
    {
        let now = now_unix_secs();
        match self.validity() {
            Ok((not_before, not_after)) => Ok(now >= not_before && now <= not_after),
            Err(e) => Err(e),
        }
    }

    /// The extensions, each OID once.
    fn extensions(&self) -> (r: BackendResult<Vec<(String, Vec<u8>)>>)
        ensures
            r matches Ok(v) ==> attrs_unique(v@) && attr_map(v@) == self.spec_extensions(),
    ;

    /// Whether the certificate allows the given key usage.
    fn has_key_usage(&self, usage: KeyUsage) -> BackendResult<bool>;

    /// The X.509 version.
    fn version(&self) -> BackendResult<u32>;

    /// The name of the signature algorithm.
    fn signature_algorithm(&self) -> BackendResult<String>;

    /// The algorithm of the public key.
    fn public_key_algorithm(&self) -> BackendResult<KeyAlgorithm>;

    /// Whether this is a CA certificate: the Basic Constraints extension is
    /// present, not empty, and its first byte is not zero.
    fn is_ca(&self) -> (r: BackendResult<bool>)
        ensures
            r matches Err(e) ==> call_ensures(
                Self::extensions,
                (self,),
                Err::<Vec<(String, Vec<u8>)>, BackendError>(e),
            ),
            r matches Ok(b) ==> b == (self.spec_extensions().contains_key(basic_constraints_oid())
                && self.spec_extensions()[basic_constraints_oid()].len() > 0
                && self.spec_extensions()[basic_constraints_oid()][0] != 0),
    {
        let extensions = match self.extensions() {
            Ok(e) => e,
            Err(e) => return Err(e),
        };
        match attrs_get(&extensions, "2.5.29.19") {
            Some(bc) => Ok(bc.len() > 0 && bc[0] != 0),
            None => Ok(false),
        }
    }

    /// Whether subject and issuer are the same name.
    fn is_self_signed(&self) -> (r: BackendResult<bool>)
        ensures
            r matches Err(e) ==> call_ensures(Self::subject, (self,), Err::<String, BackendError>(e)) || exists|
                s: String,
            |
                #[trigger] call_ensures(Self::subject, (self,), Ok::<String, BackendError>(s)) && call_ensures(
                    Self::issuer,
                    (self,),
                    Err::<String, BackendError>(e),
                ),
            r matches Ok(b) ==> exists|s: String, i: String|
                #![trigger call_ensures(Self::subject, (self,), Ok::<String, BackendError>(s)), call_ensures(Self::issuer, (self,), Ok::<String, BackendError>(i))]
                call_ensures(Self::subject, (self,), Ok::<String, BackendError>(s)) && call_ensures(
                    Self::issuer,
                    (self,),
                    Ok::<String, BackendError>(i),
                ) && b == (s@ == i@),
    {
        let subject = match self.subject() {
            Ok(s) => s,
            Err(e) => return Err(e),
        };
        let issuer = match self.issuer() {
            Ok(s) => s,
            Err(e) => return Err(e),
        };
        Ok(subject == issuer)
    }

    /// The subject key identifier extension (OID 2.5.29.14), if present.
    fn key_identifier(&self) -> (r: BackendResult<Option<Vec<u8>>>)
        ensures
            r matches Err(e) ==> call_ensures(
                Self::extensions,
                (self,),
                Err::<Vec<(String, Vec<u8>)>, BackendError>(e),
            ),
            r matches Ok(o) ==> (o matches Some(v) ==> self.spec_extensions().contains_key("2.5.29.14"@)
                && v@ == self.spec_extensions()["2.5.29.14"@]) && (o is None ==> !self.spec_extensions().contains_key("2.5.29.14"@)),
    {
        let extensions = match self.extensions() {
            Ok(e) => e,
            Err(e) => return Err(e),
        };
        Ok(attrs_get(&extensions, "2.5.29.14"))
    }

    /// The authority key identifier extension (OID 2.5.29.35), if present.
    fn authority_key_identifier(&self) -> (r: BackendResult<Option<Vec<u8>>>)
        ensures
            r matches Err(e) ==> call_ensures(
                Self::extensions,
                (self,),
                Err::<Vec<(String, Vec<u8>)>, BackendError>(e),
            ),
            r matches Ok(o) ==> (o matches Some(v) ==> self.spec_extensions().contains_key("2.5.29.35"@)
                && v@ == self.spec_extensions()["2.5.29.35"@]) && (o is None ==> !self.spec_extensions().contains_key("2.5.29.35"@)),
    {
        let extensions = match self.extensions() {
            Ok(e) => e,
            Err(e) => return Err(e),
        };
        Ok(attrs_get(&extensions, "2.5.29.35"))
    }
}

/// X.509 key usage flags.
#[derive(Debug, Clone, Copy, PartialEq, Eq, Structural)]
pub enum CertKeyUsage {
    DigitalSignature,
    NonRepudiation,
    KeyEncipherment,
    DataEncipherment,
    KeyAgreement,
    KeyCertSign,
    CrlSign,
    EncipherOnly,
    DecipherOnly,
}

/// Bit position of each usage in the key usage extension.
pub open spec fn usage_bit(u: CertKeyUsage) -> u8 {
    match u {
        CertKeyUsage::DigitalSignature => 0,
        CertKeyUsage::NonRepudiation => 1,
        CertKeyUsage::KeyEncipherment => 2,
        CertKeyUsage::DataEncipherment => 3,
        CertKeyUsage::KeyAgreement => 4,
        CertKeyUsage::KeyCertSign => 5,
        CertKeyUsage::CrlSign => 6,
        CertKeyUsage::EncipherOnly => 7,
        CertKeyUsage::DecipherOnly => 8,
    }
}

impl CertKeyUsage {
    /// Bit position of this usage in the key usage extension.
    pub fn bit_position(&self) -> (r: u8)
        ensures
            r == usage_bit(*self),
    {
        match self {
            CertKeyUsage::DigitalSignature => 0,
            CertKeyUsage::NonRepudiation => 1,
            CertKeyUsage::KeyEncipherment => 2,
            CertKeyUsage::DataEncipherment => 3,
            CertKeyUsage::KeyAgreement => 4,
            CertKeyUsage::KeyCertSign => 5,
            CertKeyUsage::CrlSign => 6,
            CertKeyUsage::EncipherOnly => 7,
            CertKeyUsage::DecipherOnly => 8,
        }
    }

    /// Every usage flag, in bit order.
    pub fn all() -> (r: Vec<CertKeyUsage>)
        ensures
            r@.len() == 9,
            forall|i: int| 0 <= i < 9 ==> usage_bit(#[trigger] r@[i]) == i,
    {
        let mut v: Vec<CertKeyUsage> = Vec::new();
        v.push(CertKeyUsage::DigitalSignature);
        v.push(CertKeyUsage::NonRepudiation);
        v.push(CertKeyUsage::KeyEncipherment);
        v.push(CertKeyUsage::DataEncipherment);
        v.push(CertKeyUsage::KeyAgreement);
        v.push(CertKeyUsage::KeyCertSign);
        v.push(CertKeyUsage::CrlSign);
        v.push(CertKeyUsage::EncipherOnly);
        v.push(CertKeyUsage::DecipherOnly);
        v
    }
}

/// Distinct usages have distinct bit positions.
pub proof fn lemma_usage_bits_distinct(a: CertKeyUsage, b: CertKeyUsage)
    ensures
        usage_bit(a) == usage_bit(b) <==> a == b,
{
}

/// A read gives back what a write wrote: once `set_attribute(name, value)`
/// has succeeded on a key, the key's attributes hold `value` under `name`
/// and every other attribute as before.
pub proof fn lemma_attribute_read_after_write<K: Key>(before: K, after: K, name: Seq<char>, value: Seq<u8>)
    requires
        after.spec_attributes() == before.spec_attributes().insert(name, value),
    ensures
        after.spec_attributes().contains_key(name),
        after.spec_attributes()[name] == value,
        forall|other: Seq<char>|
            other != name ==> (#[trigger] after.spec_attributes().contains_key(other)
                == before.spec_attributes().contains_key(other) && (before.spec_attributes().contains_key(other)
                ==> after.spec_attributes()[other] == before.spec_attributes()[other])),
{
}

} // verus!
