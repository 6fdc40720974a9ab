//! Key handles built from the PEM of token key objects.

use vstd::prelude::*;
use vstd::string::StringSliceAdditionalSpecFns;
use vstd::utf8::{decode_utf8, encode_utf8};
use std::collections::hash_map::DefaultHasher;
use std::hash::Hasher;
use vstd::std_specs::hash::DefaultHasherAdditionalSpecFns;
use crate::p11::api::Mechanism;
use crate::p11::ck::{Error, Result};
use crate::p11::db::{Object, ObjectKind};
use crate::text::{decimal, string_from_utf8, usize_to_decimal};
use crate::traits::key::{Key, read_only_attribute};
use crate::types::context::{attr_map, attrs_insert, attrs_unique};
use crate::types::error::{BackendError, BackendResult};
use crate::types::key::{KeyAlgorithm, KeyType, KeyUsage, alg_name, key_bits, key_type_name, usage_uniform};

verus! {

/// A key handle over the PEM of a token key object.
#[derive(Debug)]
pub struct BridgeKey {
    pem_data: String,
    key_type: KeyType,
    algorithm: KeyAlgorithm,
    key_id: Option<Vec<u8>>,
    label: Option<String>,
    usage: KeyUsage,
}

/// The attributes of a bridge key: its algorithm's name, its type's name and
/// its size in decimal, each as UTF-8, then its identifier and label where
/// they are set.
pub open spec fn bridge_attributes(
    alg: KeyAlgorithm,
    kt: KeyType,
    key_id: Option<Seq<u8>>,
    label: Option<Seq<char>>,
) -> Map<Seq<char>, Seq<u8>> {
    let base = Map::<Seq<char>, Seq<u8>>::empty().insert("algorithm"@, encode_utf8(alg_name(alg))).insert(
        "key_type"@,
        encode_utf8(key_type_name(kt)),
    ).insert("key_size"@, encode_utf8(decimal(key_bits(alg))));
    let with_id = match key_id {
        Some(k) => base.insert("key_id"@, k),
        None => base,
    };
    match label {
        Some(l) => with_id.insert("label"@, encode_utf8(l)),
        None => with_id,
    }
}

/// The big-endian bytes of `n`.
pub open spec fn be_bytes(n: u64) -> Seq<u8> {
    Seq::new(8, |i: int| (n >> ((56 - 8 * i) as u64)) as u8)
}

/// The bytes of `n`, most significant first.
fn u64_to_be_bytes(n: u64) -> (r: Vec<u8>)
    ensures
        r@ == be_bytes(n),
{
    let mut out: Vec<u8> = Vec::new();
    let mut i: u64 = 0;
    while i < 8
        invariant
            i <= 8,
            out@.len() == i,
            forall|j: int| 0 <= j < i ==> out@[j] == #[trigger] be_bytes(n)[j],
        decreases 8 - i,
    {
        let shift: u64 = 56 - 8 * i;
        out.push(#[verifier::truncate] ((n >> shift) as u8));
        i = i + 1;
    }
    proof {
        assert(out@ =~= be_bytes(n));
    }
    out
}

/// The UTF-8 bytes of `s`.
fn utf8_bytes(s: &str) -> (r: Vec<u8>)
    ensures
        r@ == encode_utf8(s@),
{
    vstd::slice::slice_to_vec(s.as_bytes())
}

impl BridgeKey {
    /// The PEM the key is loaded from.
    pub closed spec fn spec_pem(&self) -> Seq<char> {
        self.pem_data@
    }

    /// The key identifier, if set.
    pub closed spec fn spec_key_id(&self) -> Option<Seq<u8>> {
        match self.key_id {
            Some(v) => Some(v@),
            None => None,
        }
    }

    /// The label, if set.
    pub closed spec fn spec_label(&self) -> Option<Seq<char>> {
        match self.label {
            Some(s) => Some(s@),
            None => None,
        }
    }

    /// A key over `pem_data`, of the given type and algorithm, usable for
    /// everything, with no identifier and no label.
    pub fn from_pem(pem_data: String, key_type: KeyType, algorithm: KeyAlgorithm) -> (r: BridgeKey)
        ensures
            r.spec_pem() == pem_data@,
            r.spec_key_type() == key_type,
            r.spec_algorithm() == algorithm,
            r.spec_usage() == usage_uniform(true),
            r.spec_key_id() is None,
            r.spec_label() is None,
    {
        BridgeKey { pem_data, key_type, algorithm, key_id: None, label: None, usage: KeyUsage::all() }
    }

    /// A key over a token key object: RSA objects give 2048-bit RSA keys,
    /// EC objects P-256 keys, private or public as the object is; other
    /// objects are refused as inconsistent.
    pub fn from_p11_object(obj: &Object) -> (r: Result<BridgeKey>)
        ensures
            match object_key(obj.spec_kind()) {
                Some((p, kt, alg)) => r matches Ok(k) && k.spec_pem() == p && k.spec_key_type() == kt
                    && k.spec_algorithm() == alg && k.spec_usage() == usage_uniform(true) && k.spec_key_id() is None
                    && k.spec_label() is None,
                None => r == Err::<BridgeKey, Error>(Error::KeyTypeInconsistent),
            },
    {
        match obj.kind() {
            ObjectKind::RsaPrivateKey(pem) => Ok(
                BridgeKey::from_pem(copy_string(pem), KeyType::Private, KeyAlgorithm::Rsa2048),
            ),
            ObjectKind::RsaPublicKey(pem) => Ok(
                BridgeKey::from_pem(copy_string(pem), KeyType::Public, KeyAlgorithm::Rsa2048),
            ),
            ObjectKind::EcPrivateKey(pem) => Ok(
                BridgeKey::from_pem(copy_string(pem), KeyType::Private, KeyAlgorithm::EcdsaP256),
            ),
            ObjectKind::EcPublicKey(pem) => Ok(
                BridgeKey::from_pem(copy_string(pem), KeyType::Public, KeyAlgorithm::EcdsaP256),
            ),
            _ => Err(Error::KeyTypeInconsistent),
        }
    }

    /// The PEM the key is loaded from.
    pub fn pem_data(&self) -> (r: &str)
        ensures
            r@ == self.spec_pem(),
    {
        self.pem_data.as_str()
    }
}

/// The PEM, key type and algorithm of the key a token key object holds.
pub open spec fn object_key(kind: ObjectKind) -> Option<(Seq<char>, KeyType, KeyAlgorithm)> {
    match kind {
        ObjectKind::RsaPrivateKey(p) => Some((p@, KeyType::Private, KeyAlgorithm::Rsa2048)),
        ObjectKind::RsaPublicKey(p) => Some((p@, KeyType::Public, KeyAlgorithm::Rsa2048)),
        ObjectKind::EcPrivateKey(p) => Some((p@, KeyType::Private, KeyAlgorithm::EcdsaP256)),
        ObjectKind::EcPublicKey(p) => Some((p@, KeyType::Public, KeyAlgorithm::EcdsaP256)),
        _ => None,
    }
}

/// A copy of a string.
fn copy_string(s: &String) -> (r: String)
    ensures
        r@ == s@,
{
    String::from_str(s.as_str())
}

impl Key for BridgeKey {
    closed spec fn spec_algorithm(&self) -> KeyAlgorithm {
        self.algorithm
    }

    closed spec fn spec_key_type(&self) -> KeyType {
        self.key_type
    }

    closed spec fn spec_usage(&self) -> KeyUsage {
        self.usage
    }

    /// Bridge keys may always be exported.
    closed spec fn spec_extractable(&self) -> bool {
        true
    }

    /// Private keys are sensitive.
    closed spec fn spec_sensitive(&self) -> bool {
        self.key_type == KeyType::Private
    }

    closed spec fn spec_attributes(&self) -> Map<Seq<char>, Seq<u8>> {
        bridge_attributes(self.algorithm, self.key_type, self.spec_key_id(), self.spec_label())
    }

    fn algorithm(&self) -> (r: KeyAlgorithm) {
        self.algorithm
    }

    fn key_type(&self) -> (r: KeyType) {
        self.key_type
    }

    fn key_size(&self) -> (r: usize) {
        proof {
            assert(self.spec_algorithm() == self.algorithm);
        }
        self.algorithm.key_size_bits()
    }

    fn key_id(&self) -> (r: Option<&[u8]>)
        ensures
            r matches Some(s) ==> self.spec_key_id() == Some(s@),
            r is None ==> self.spec_key_id() is None,
    {
        match &self.key_id {
            Some(v) => Some(v.as_slice()),
            None => None,
        }
    }

    fn label(&self) -> (r: Option<&str>)
        ensures
            r matches Some(s) ==> self.spec_label() == Some(s@),
            r is None ==> self.spec_label() is None,
    {
        match &self.label {
            Some(s) => Some(s.as_str()),
            None => None,
        }
    }

    fn usage(&self) -> (r: KeyUsage) {
        self.usage
    }

    fn is_extractable(&self) -> (r: bool) {
        true
    }

    fn is_sensitive(&self) -> (r: bool) {
        match self.key_type {
            KeyType::Private => true,
            _ => false,
        }
    }

    /// A private key is sensitive and refused; other keys give the UTF-8
    /// bytes of their PEM.
    fn export_key(&self) -> (r: BackendResult<Vec<u8>>)
        ensures
            self.spec_key_type() == KeyType::Private ==> r matches Err(BackendError::KeySensitive),
            self.spec_key_type() != KeyType::Private ==> (r matches Ok(v) && v@ == encode_utf8(self.spec_pem())),
    {
        if !self.is_extractable() {
            return Err(BackendError::KeyNotExtractable);
        }
        if self.is_sensitive() && self.key_type.is_private() {
            return Err(BackendError::KeySensitive);
        }
        Ok(utf8_bytes(self.pem_data.as_str()))
    }

    /// The UTF-8 bytes of the PEM.
    fn export_public_key(&self) -> (r: BackendResult<Vec<u8>>)
        ensures
            r matches Ok(v) && v@ == encode_utf8(self.spec_pem()),
    {
        Ok(utf8_bytes(self.pem_data.as_str()))
    }

    fn attributes(&self) -> (r: Vec<(String, Vec<u8>)>) {
        let mut attrs: Vec<(String, Vec<u8>)> = Vec::new();
        proof {
            assert(attr_map(attrs@) =~= Map::<Seq<char>, Seq<u8>>::empty());
        }
        attrs = attrs_insert(attrs, String::from_str("algorithm"), utf8_bytes(self.algorithm.name()));
        attrs = attrs_insert(attrs, String::from_str("key_type"), utf8_bytes(self.key_type.name()));
        let size = usize_to_decimal(self.key_size());
        attrs = attrs_insert(attrs, String::from_str("key_size"), utf8_bytes(size.as_str()));
        match &self.key_id {
            Some(k) => {
                attrs = attrs_insert(attrs, String::from_str("key_id"), vstd::slice::slice_to_vec(k.as_slice()));
            },
            None => {},
        }
        match &self.label {
            Some(l) => {
                attrs = attrs_insert(attrs, String::from_str("label"), utf8_bytes(l.as_str()));
            },
            None => {},
        }
        proof {
            assert(self.spec_attributes() == bridge_attributes(
                self.algorithm,
                self.key_type,
                self.spec_key_id(),
                self.spec_label(),
            ));
            assert(attr_map(attrs@) =~= self.spec_attributes());
        }
        attrs
    }

    /// Only the identifier and the label can be set, the label only to
    /// UTF-8; every other name is read-only.
    fn set_attribute(&mut self, name: &str, value: Vec<u8>) -> (r: BackendResult<()>)
        ensures
            name@ != "key_id"@ && name@ != "label"@ ==> (r matches Err(BackendError::ReadOnlyAttribute(m)) && m@ == name@),
            name@ == "key_id"@ ==> r is Ok && final(self).spec_key_id() == Some(value@),
            name@ == "label"@ && vstd::utf8::valid_utf8(value@) ==> r is Ok && final(self).spec_label() == Some(
                decode_utf8(value@),
            ),
            name@ == "label"@ && !vstd::utf8::valid_utf8(value@) ==> (r matches Err(BackendError::InvalidKeyData(m))
                && m@ == "Invalid UTF-8 in label"@),
            final(self).spec_pem() == old(self).spec_pem(),
    {
        proof {
            reveal_strlit("key_id");
            reveal_strlit("label");
            reveal_strlit("algorithm");
            reveal_strlit("key_type");
            reveal_strlit("key_size");
            reveal_strlit("CKA_CLASS");
            reveal_strlit("CKA_KEY_TYPE");
            reveal_strlit("CKA_MODULUS");
            reveal_strlit("CKA_PUBLIC_EXPONENT");
            assert("key_id"@[0] == 'k' && "label"@[0] == 'l');
            assert("CKA_CLASS"@[0] == 'C' && "CKA_KEY_TYPE"@[0] == 'C');
            assert("CKA_MODULUS"@[0] == 'C' && "CKA_PUBLIC_EXPONENT"@[0] == 'C');
        }
        assert(old(self).spec_attributes() == bridge_attributes(
            old(self).algorithm,
            old(self).key_type,
            old(self).spec_key_id(),
            old(self).spec_label(),
        ));
        assert(read_only_attribute(name@) ==> name@ != "key_id"@ && name@ != "label"@);
        if crate::text::str_is(name, "key_id") {
            let ghost v = value@;
            self.key_id = Some(value);
            proof {
                assert(self.spec_attributes() == bridge_attributes(
                    self.algorithm,
                    self.key_type,
                    self.spec_key_id(),
                    self.spec_label(),
                ));
                assert(self.spec_attributes() =~= old(self).spec_attributes().insert(name@, v));
            }
            Ok(())
        } else if crate::text::str_is(name, "label") {
            let ghost v = value@;
            match string_from_utf8(value) {
                Some(s) => {
                    self.label = Some(s);
                    proof {
                        vstd::utf8::decode_utf8_encode_utf8(v);
                        assert(self.spec_attributes() == bridge_attributes(
                            self.algorithm,
                            self.key_type,
                            self.spec_key_id(),
                            self.spec_label(),
                        ));
                        assert(self.spec_attributes() =~= old(self).spec_attributes().insert(name@, v));
                    }
                    Ok(())
                },
                None => Err(BackendError::InvalidKeyData(String::from_str("Invalid UTF-8 in label"))),
            }
        } else {
            Err(BackendError::ReadOnlyAttribute(String::from_str(name)))
        }
    }

    /// The std `DefaultHasher` digest of the PEM, big-endian.
    fn fingerprint(&self) -> (r: BackendResult<Vec<u8>>)
        ensures
            r matches Ok(v) && v@ == be_bytes(
                DefaultHasher::spec_finish(seq![encode_utf8(self.spec_pem()), seq![0xffu8]]),
            ),
    {
        let mut hasher = DefaultHasher::new();
        hasher.write(self.pem_data.as_str().as_bytes());
        let tail: Vec<u8> = vec![0xffu8];
        hasher.write(tail.as_slice());
        proof {
            assert(tail@ =~= seq![0xffu8]);
            assert(hasher@ =~= seq![encode_utf8(self.spec_pem()), seq![0xffu8]]);
        }
        Ok(u64_to_be_bytes(hasher.finish()))
    }
}

/// The key handle that a mechanism takes from a token key object: RSA
/// mechanisms take RSA key objects, ECDSA takes EC key objects, of the
/// requested visibility; other objects are inconsistent and other
/// mechanisms invalid.
pub fn key_for_mechanism(mech: &Mechanism, obj: &Object, is_private: bool) -> (r: Result<BridgeKey>)
    ensures
        match mech_key_object(*mech, obj.spec_kind(), is_private) {
            MechKey::Key(p, alg) => r matches Ok(k) && k.spec_pem() == p && k.spec_algorithm() == alg
                && k.spec_key_type() == (if is_private { KeyType::Private } else { KeyType::Public })
                && k.spec_usage() == usage_uniform(true) && k.spec_key_id() is None && k.spec_label() is None,
            MechKey::Inconsistent => r == Err::<BridgeKey, Error>(Error::KeyTypeInconsistent),
            MechKey::Invalid => r == Err::<BridgeKey, Error>(Error::MechanismInvalid),
        },
{
    let key_type = if is_private {
        KeyType::Private
    } else {
        KeyType::Public
    };
    match mech {
        Mechanism::RsaX509 | Mechanism::RsaPkcs(_) | Mechanism::RsaPkcsPss(_, _) => match obj.kind() {
            ObjectKind::RsaPrivateKey(pem) if is_private => Ok(
                BridgeKey::from_pem(copy_string(pem), key_type, KeyAlgorithm::Rsa2048),
            ),
            ObjectKind::RsaPublicKey(pem) if !is_private => Ok(
                BridgeKey::from_pem(copy_string(pem), key_type, KeyAlgorithm::Rsa2048),
            ),
            _ => Err(Error::KeyTypeInconsistent),
        },
        Mechanism::Ecdsa(_) => match obj.kind() {
            ObjectKind::EcPrivateKey(pem) if is_private => Ok(
                BridgeKey::from_pem(copy_string(pem), key_type, KeyAlgorithm::EcdsaP256),
            ),
            ObjectKind::EcPublicKey(pem) if !is_private => Ok(
                BridgeKey::from_pem(copy_string(pem), key_type, KeyAlgorithm::EcdsaP256),
            ),
            _ => Err(Error::KeyTypeInconsistent),
        },
        _ => Err(Error::MechanismInvalid),
    }
}

/// What a mechanism finds in a key object.
pub enum MechKey {
    /// A key: its PEM and algorithm.
    Key(Seq<char>, KeyAlgorithm),
    /// An object of the wrong type or visibility.
    Inconsistent,
    /// A mechanism that takes no key object.
    Invalid,
}

/// What `mech` finds in an object of kind `kind` when it asks for a private
/// (or public) key.
pub open spec fn mech_key_object(mech: Mechanism, kind: ObjectKind, is_private: bool) -> MechKey {
    match mech {
        Mechanism::RsaX509 | Mechanism::RsaPkcs(_) | Mechanism::RsaPkcsPss(_, _) => match kind {
            ObjectKind::RsaPrivateKey(p) if is_private => MechKey::Key(p@, KeyAlgorithm::Rsa2048),
            ObjectKind::RsaPublicKey(p) if !is_private => MechKey::Key(p@, KeyAlgorithm::Rsa2048),
            _ => MechKey::Inconsistent,
        },
        Mechanism::Ecdsa(_) => match kind {
            ObjectKind::EcPrivateKey(p) if is_private => MechKey::Key(p@, KeyAlgorithm::EcdsaP256),
            ObjectKind::EcPublicKey(p) if !is_private => MechKey::Key(p@, KeyAlgorithm::EcdsaP256),
            _ => MechKey::Inconsistent,
        },
        _ => MechKey::Invalid,
    }
}

} // verus!
