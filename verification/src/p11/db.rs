//! The token's object database: mechanism, key and certificate objects,
//! addressed by their position, and the token PIN.

use vstd::prelude::*;
use crate::p11::api::{
    CertCategory, Certificate, EcKey, Key, KeyType as ApiKeyType, Mechanism, RsaKey, VtokBackend,
};
use crate::text::{decimal, usize_to_decimal};

verus! {

/// What an RSA key object is built from.
#[derive(Clone)]
pub struct RsaKeyInfo {
    pub priv_pem: String,
    pub id: u8,
    pub label: String,
    pub num_bits: u64,
    pub modulus: Vec<u8>,
    pub public_exponent: Vec<u8>,
}

/// What an EC key object is built from.
#[derive(Clone)]
pub struct EcKeyInfo {
    pub priv_pem: String,
    pub id: u8,
    pub label: String,
    pub params_x962: Vec<u8>,
    pub point_q_x962: Vec<u8>,
}

/// What a certificate object is built from.
#[derive(Clone)]
pub struct CertInfo {
    pub categ: CertCategory,
    pub id: u8,
    pub label: String,
    pub subject_der: Vec<u8>,
    pub issuer_der: Vec<u8>,
    pub serno_der: Vec<u8>,
    pub cert_der: Vec<u8>,
}

/// Errors of the object database.
#[derive(Clone, Copy, Debug, PartialEq, Eq, Structural)]
pub enum Error {
    GeneralError,
}

/// The handle of an object: its position in the database.
#[derive(Clone, Copy, Debug, PartialEq, Eq, Structural)]
pub struct ObjectHandle(pub usize);

/// What an object is; a key object carries the PEM its key is loaded from.
#[derive(Clone)]
pub enum ObjectKind {
    Mechanism(Mechanism),
    RsaPrivateKey(String),
    RsaPublicKey(String),
    EcPrivateKey(String),
    EcPublicKey(String),
    Certificate(CertInfo),
}

/// What a key object was built from: the key's identifier, label, PEM and
/// public parameters.
#[derive(Clone)]
pub enum KeyInfo {
    /// The object is not a key.
    NotAKey,
    Rsa(RsaKeyInfo),
    Ec(EcKeyInfo),
}

/// A token object.
#[derive(Clone)]
pub struct Object {
    kind: ObjectKind,
    key_info: KeyInfo,
}

/// Whether an object of this kind is the private key object of the key
/// loaded from `pem`.
pub open spec fn key_object_of(k: ObjectKind, pem: Seq<char>) -> bool {
    match k {
        ObjectKind::RsaPrivateKey(p) => p@ == pem,
        ObjectKind::EcPrivateKey(p) => p@ == pem,
        _ => false,
    }
}

/// What the objects that one provisioned key adds to the database are:
/// none only where the backend may refuse to load the key's PEM; otherwise
/// first the key's private key object.
pub open spec fn key_segment<B: VtokBackend>(backend: &B, key: PrivateKeyConfig, seg: Seq<Object>) -> bool {
    &&& seg.len() == 0 ==> exists|s: &str, e: crate::p11::api::Error|
        s@ == key.pem@ && #[trigger] call_ensures(
            B::load_private_key,
            (backend, s),
            Err::<B::BackendKey, crate::p11::api::Error>(e),
        )
    &&& seg.len() > 0 ==> key_object_of(seg[0].spec_kind(), key.pem@)
    &&& seg.len() > 0 ==> key_info_of(seg[0].spec_key_info(), key, key.pem@)
    &&& seg.len() > 0 ==> exists|
        s: &str,
        k: B::BackendKey,
        pr: crate::p11::api::Result<B::BackendKey>,
        t: ApiKeyType,
    |
        s@ == key.pem@ && #[trigger] call_ensures(
            B::load_private_key,
            (backend, s),
            Ok::<B::BackendKey, crate::p11::api::Error>(k),
        ) && #[trigger] call_ensures(B::BackendKey::public_key, (&k,), pr) && #[trigger] call_ensures(
            B::BackendKey::key_type,
            (&k,),
            t,
        ) && (seg[0].spec_kind() is RsaPrivateKey <==> t == ApiKeyType::Rsa) && match pr {
            Ok(_) => seg.len() > 1 && is_public_key_object(seg[1].spec_kind()) && (seg[1].spec_kind() is RsaPublicKey
                <==> t == ApiKeyType::Rsa) && key_info_of(seg[1].spec_key_info(), key, Seq::empty()) && chain_segment(
                backend,
                key,
                seg.subrange(2, seg.len() as int),
            ),
            Err(_) => chain_segment(backend, key, seg.subrange(1, seg.len() as int)),
        }
}

/// Whether a key object was built with the identifier and label of the
/// provisioned key `key` and with `pem` (its PEM for the private key
/// object, empty for the public one).
pub open spec fn key_info_of(info: KeyInfo, key: PrivateKeyConfig, pem: Seq<char>) -> bool {
    match info {
        KeyInfo::Rsa(i) => i.id == key.id && i.label@ == key.label@ && i.priv_pem@ == pem,
        KeyInfo::Ec(i) => i.id == key.id && i.label@ == key.label@ && i.priv_pem@ == pem,
        KeyInfo::NotAKey => false,
    }
}

/// Whether an object of this kind is the certificate object of `cert`: its
/// subject, issuer, serial number and DER encoding are what the
/// certificate's methods give.
pub open spec fn cert_object_from<C: Certificate>(k: ObjectKind, cert: C) -> bool {
    k matches ObjectKind::Certificate(c) && call_ensures(C::subject, (&cert,), c.subject_der) && call_ensures(
        C::issuer,
        (&cert,),
        c.issuer_der,
    ) && call_ensures(C::serial_number, (&cert,), c.serno_der) && call_ensures(C::to_der, (&cert,), c.cert_der)
}

/// Whether an object of this kind is a public key object.
pub open spec fn is_public_key_object(k: ObjectKind) -> bool {
    k is RsaPublicKey || k is EcPublicKey
}

/// Whether an object of this kind is the certificate at position `pos` of
/// the chain of the key with identifier `id`: labelled by its position, the
/// token's own certificate first with the key's identifier, then the
/// authorities with the identifier advanced by their position (modulo 256).
pub open spec fn chain_object(k: ObjectKind, pos: nat, id: u8) -> bool {
    k matches ObjectKind::Certificate(c) && c.label@ == cert_label(pos) && c.categ == (if pos == 0 {
        CertCategory::Token
    } else {
        CertCategory::Authority
    }) && c.id as int == (if pos == 0 {
        id as int
    } else {
        (id + pos) % 256
    })
}

/// What the certificate chain of a provisioned key adds: nothing without a
/// chain; otherwise one certificate object per certificate the backend may
/// load from the chain's PEM, in order, and nothing where it may refuse it.
pub open spec fn chain_segment<B: VtokBackend>(backend: &B, key: PrivateKeyConfig, seg: Seq<Object>) -> bool {
    match key.cert_pem {
        None => seg.len() == 0,
        Some(p) => exists|s: &str, cr: crate::p11::api::Result<Vec<B::BackendCert>>|
            s@ == p@ && #[trigger] call_ensures(B::load_certificates, (backend, s), cr) && match cr {
                Ok(certs) => seg.len() == certs@.len() && forall|i: int|
                    0 <= i < seg.len() ==> chain_object(#[trigger] seg[i].spec_kind(), i as nat, key.id)
                        && cert_object_from(seg[i].spec_kind(), certs@[i]),
                Err(_) => seg.len() == 0,
            },
    }
}

/// Whether the objects between `bounds[j]` and `bounds[j + 1]` are what
/// the `j`-th provisioned key adds.
pub open spec fn segment_at<B: VtokBackend>(
    backend: &B,
    keys: Seq<PrivateKeyConfig>,
    objects: Seq<Object>,
    bounds: Seq<int>,
    j: int,
) -> bool {
    bounds[j] <= bounds[j + 1] && key_segment(backend, keys[j], objects.subrange(bounds[j], bounds[j + 1]))
}

/// Whether an object of this kind holds private material.
pub open spec fn kind_is_private(k: ObjectKind) -> bool {
    k is RsaPrivateKey || k is EcPrivateKey
}

impl Object {
    /// What the object is.
    pub closed spec fn spec_kind(&self) -> ObjectKind {
        self.kind
    }

    /// A mechanism object.
    pub fn new_mechanism(mech: Mechanism) -> (r: Object)
        ensures
            r.spec_kind() == ObjectKind::Mechanism(mech),
            r.spec_key_info() is NotAKey,
    {
        Object { kind: ObjectKind::Mechanism(mech), key_info: KeyInfo::NotAKey }
    }

    /// An RSA private key object.
    pub fn new_rsa_private_key(info: RsaKeyInfo) -> (r: Object)
        ensures
            r.spec_kind() matches ObjectKind::RsaPrivateKey(p) && p@ == info.priv_pem@,
            r.spec_key_info() == KeyInfo::Rsa(info),
    {
        let pem = info.priv_pem.clone();
        Object { kind: ObjectKind::RsaPrivateKey(pem), key_info: KeyInfo::Rsa(info) }
    }

    /// An RSA public key object.
    pub fn new_rsa_public_key(info: RsaKeyInfo) -> (r: Object)
        ensures
            r.spec_kind() matches ObjectKind::RsaPublicKey(p) && p@ == info.priv_pem@,
            r.spec_key_info() == KeyInfo::Rsa(info),
    {
        let pem = info.priv_pem.clone();
        Object { kind: ObjectKind::RsaPublicKey(pem), key_info: KeyInfo::Rsa(info) }
    }

    /// An EC private key object.
    pub fn new_ec_private_key(info: EcKeyInfo) -> (r: Object)
        ensures
            r.spec_kind() matches ObjectKind::EcPrivateKey(p) && p@ == info.priv_pem@,
            r.spec_key_info() == KeyInfo::Ec(info),
    {
        let pem = info.priv_pem.clone();
        Object { kind: ObjectKind::EcPrivateKey(pem), key_info: KeyInfo::Ec(info) }
    }

    /// An EC public key object.
    pub fn new_ec_public_key(info: EcKeyInfo) -> (r: Object)
        ensures
            r.spec_kind() matches ObjectKind::EcPublicKey(p) && p@ == info.priv_pem@,
            r.spec_key_info() == KeyInfo::Ec(info),
    {
        let pem = info.priv_pem.clone();
        Object { kind: ObjectKind::EcPublicKey(pem), key_info: KeyInfo::Ec(info) }
    }

    /// An X.509 certificate object.
    pub fn new_x509_cert(info: CertInfo) -> (r: Object)
        ensures
            r.spec_kind() == ObjectKind::Certificate(info),
            r.spec_key_info() is NotAKey,
    {
        Object { kind: ObjectKind::Certificate(info), key_info: KeyInfo::NotAKey }
    }

    /// What a key object was built from.
    pub closed spec fn spec_key_info(&self) -> KeyInfo {
        self.key_info
    }

    /// What a key object was built from; `NotAKey` for other objects.
    pub fn key_info(&self) -> (r: &KeyInfo)
        ensures
            *r == self.spec_key_info(),
    {
        &self.key_info
    }

    /// What the object is.
    pub fn kind(&self) -> (r: &ObjectKind)
        ensures
            *r == self.spec_kind(),
    {
        &self.kind
    }

    /// Whether the object holds private material.
    pub fn is_private(&self) -> (r: bool)
        ensures
            r == kind_is_private(self.spec_kind()),
    {
        match &self.kind {
            ObjectKind::RsaPrivateKey(_) | ObjectKind::EcPrivateKey(_) => true,
            _ => false,
        }
    }

    /// Whether the object is a mechanism object.
    pub fn is_mechanism(&self) -> (r: bool)
        ensures
            r == (self.spec_kind() is Mechanism),
    {
        match &self.kind {
            ObjectKind::Mechanism(_) => true,
            _ => false,
        }
    }
}

/// A private key provisioned on a token: its identifier, label, PEM and
/// certificate chain, if any.
pub struct PrivateKeyConfig {
    pub id: u8,
    pub label: String,
    pub pem: String,
    pub cert_pem: Option<String>,
}

/// What a token is provisioned with: its PIN and private keys.
pub struct TokenConfig {
    pub pin: String,
    pub private_keys: Vec<PrivateKeyConfig>,
}

/// The label of the certificate at position `pos` of a key's chain.
pub open spec fn cert_label(pos: nat) -> Seq<char> {
    "acm-ne-cert-"@ + decimal(pos)
}

/// What a token object made from provisioned keys can be: a private key
/// object with the PEM of one of the keys, a public key object (with no
/// PEM of its own), or a certificate of one of the chains.
pub open spec fn provisioned_object(kind: ObjectKind, keys: Seq<PrivateKeyConfig>) -> bool {
    match kind {
        ObjectKind::Mechanism(_) => false,
        ObjectKind::RsaPrivateKey(p) => exists|j: int| 0 <= j < keys.len() && p@ == #[trigger] keys[j].pem@,
        ObjectKind::EcPrivateKey(p) => exists|j: int| 0 <= j < keys.len() && p@ == #[trigger] keys[j].pem@,
        ObjectKind::RsaPublicKey(p) => p@ == Seq::<char>::empty(),
        ObjectKind::EcPublicKey(p) => p@ == Seq::<char>::empty(),
        ObjectKind::Certificate(c) => exists|pos: nat| c.label@ == #[trigger] cert_label(pos),
    }
}

/// The object database of a token.
#[derive(Clone)]
pub struct Db {
    token_pin: String,
    objects: Vec<Object>,
}

impl Db {
    /// The objects, in handle order.
    pub closed spec fn spec_objects(&self) -> Seq<Object> {
        self.objects@
    }

    /// The token PIN.
    pub closed spec fn spec_pin(&self) -> Seq<char> {
        self.token_pin@
    }

    /// A database of the given objects behind the given PIN.
    pub fn new(token_pin: String, objects: Vec<Object>) -> (r: Db)
        ensures
            r.spec_objects() == objects@,
            r.spec_pin() == token_pin@,
    {
        Db { token_pin, objects }
    }

    /// The database of a provisioned token: a mechanism object for each of
    /// `mechanisms`, in order; then for each private key the backend loads,
    /// its private key object, its public key object where the backend gives
    /// the public key, and an object for each certificate of its chain (the
    /// first one the token's, with the key's identifier; the others
    /// authorities, with the identifier advanced by their position). Keys
    /// and chains the backend cannot load are left out.
    pub fn from_token_config<B: VtokBackend>(
        token_config: &TokenConfig,
        mechanisms: &[Mechanism],
        backend: &B,
    ) -> (r: core::result::Result<Db, Error>)
        ensures
            r matches Ok(db) && db.spec_pin() == token_config.pin@ && db.spec_objects().len() >= mechanisms@.len()
                && (forall|i: int|
                0 <= i < mechanisms@.len() ==> (#[trigger] db.spec_objects()[i]).spec_kind() == ObjectKind::Mechanism(
                    mechanisms@[i],
                )) && (forall|i: int|
                mechanisms@.len() <= i < db.spec_objects().len() ==> provisioned_object(
                    (#[trigger] db.spec_objects()[i]).spec_kind(),
                    token_config.private_keys@,
                )),
            r matches Ok(db) ==> exists|bounds: Seq<int>|
                #![trigger bounds.len()]
                bounds.len() == token_config.private_keys@.len() + 1 && bounds[0] == mechanisms@.len()
                    && bounds.last() == db.spec_objects().len() && forall|k: int|
                    0 <= k < token_config.private_keys@.len() ==> #[trigger] segment_at(
                        backend,
                        token_config.private_keys@,
                        db.spec_objects(),
                        bounds,
                        k,
                    ),
    {
        let mut objects: Vec<Object> = Vec::new();
        let mut m: usize = 0;
        while m < mechanisms.len()
            invariant
                m <= mechanisms@.len(),
                objects@.len() == m,
                forall|i: int| 0 <= i < m ==> (#[trigger] objects@[i]).spec_kind() == ObjectKind::Mechanism(mechanisms@[i]),
            decreases mechanisms@.len() - m,
        {
            objects.push(Object::new_mechanism(mechanisms[m]));
            m = m + 1;
        }
        let ghost keys = token_config.private_keys@;
        let mut k: usize = 0;
        let ghost mut bounds: Seq<int> = seq![mechanisms@.len() as int];
        while k < token_config.private_keys.len()
            invariant
                keys == token_config.private_keys@,
                k <= keys.len(),
                bounds.len() == k + 1,
                bounds[0] == mechanisms@.len(),
                bounds.last() == objects@.len(),
                forall|j: int| 0 <= j <= k ==> mechanisms@.len() <= #[trigger] bounds[j] <= objects@.len(),
                forall|j: int| 0 <= j < k ==> #[trigger] segment_at(backend, keys, objects@, bounds, j),
                objects@.len() >= mechanisms@.len(),
                forall|i: int|
                    0 <= i < mechanisms@.len() ==> (#[trigger] objects@[i]).spec_kind() == ObjectKind::Mechanism(
                        mechanisms@[i],
                    ),
                forall|i: int|
                    mechanisms@.len() <= i < objects@.len() ==> provisioned_object(
                        (#[trigger] objects@[i]).spec_kind(),
                        keys,
                    ),
            decreases keys.len() - k,
        {
            let key_config = &token_config.private_keys[k];
            let ghost before = objects@;
            Self::push_key_objects(&mut objects, key_config, backend, Ghost(keys), Ghost(k as int));
            proof {
                let old_bounds = bounds;
                bounds = bounds.push(objects@.len() as int);
                assert forall|j: int| 0 <= j < k + 1 implies #[trigger] segment_at(
                    backend,
                    keys,
                    objects@,
                    bounds,
                    j,
                ) by {
                    if j < k {
                        assert(bounds[j] == old_bounds[j] && bounds[j + 1] == old_bounds[j + 1]);
                        assert(segment_at(backend, keys, before, old_bounds, j));
                        assert(objects@.subrange(bounds[j], bounds[j + 1]) =~= before.subrange(
                            old_bounds[j],
                            old_bounds[j + 1],
                        ));
                        assert(key_segment(backend, keys[j], objects@.subrange(bounds[j], bounds[j + 1])));
                    } else {
                        assert(bounds[j] == before.len() && bounds[j + 1] == objects@.len());
                        assert(key_segment(backend, keys[j], objects@.subrange(bounds[j], bounds[j + 1])));
                    }
                }
                assert forall|i: int| mechanisms@.len() <= i < objects@.len() implies provisioned_object(
                    (#[trigger] objects@[i]).spec_kind(),
                    keys,
                ) by {
                    if i < before.len() {
                        assert(objects@[i] == before[i]);
                    }
                }
            }
            k = k + 1;
        }
        proof {
            assert(bounds.len() == keys.len() + 1);
        }
        Ok(Db { token_pin: String::from_str(token_config.pin.as_str()), objects })
    }

    /// Appends the objects of one provisioned key: nothing when the backend
    /// cannot load it.
    fn push_key_objects<B: VtokBackend>(
        objects: &mut Vec<Object>,
        key_config: &PrivateKeyConfig,
        backend: &B,
        Ghost(keys): Ghost<Seq<PrivateKeyConfig>>,
        Ghost(k): Ghost<int>,
    )
        requires
            0 <= k < keys.len(),
            keys[k] == *key_config,
        ensures
            final(objects)@.len() >= old(objects)@.len(),
            forall|i: int| 0 <= i < old(objects)@.len() ==> final(objects)@[i] == old(objects)@[i],
            forall|i: int|
                old(objects)@.len() <= i < final(objects)@.len() ==> provisioned_object(
                    (#[trigger] final(objects)@[i]).spec_kind(),
                    keys,
                ),
            final(objects)@.len() == old(objects)@.len() ==> exists|s: &str, e: crate::p11::api::Error|
                s@ == key_config.pem@ && #[trigger] call_ensures(
                    B::load_private_key,
                    (backend, s),
                    Err::<B::BackendKey, crate::p11::api::Error>(e),
                ),
            final(objects)@.len() > old(objects)@.len() ==> key_object_of(
                final(objects)@[old(objects)@.len() as int].spec_kind(),
                key_config.pem@,
            ),
            key_segment(backend, keys[k], final(objects)@.subrange(old(objects)@.len() as int, final(objects)@.len() as int)),
    {
        let ghost start = objects@;
        let pem_str = key_config.pem.as_str();
        let loaded = backend.load_private_key(pem_str);
        proof {
            assert(call_ensures(B::load_private_key, (backend, pem_str), loaded));
        }
        let key = match loaded {
            Ok(key) => key,
            Err(e) => {
                proof {
                    assert(call_ensures(B::load_private_key, (backend, pem_str), Err::<B::BackendKey, crate::p11::api::Error>(e)));
                }
                return;
            },
        };
        let pr = key.public_key();
        proof {
            assert(call_ensures(B::BackendKey::public_key, (&key,), pr));
        }
        let public_key = match pr {
            Ok(p) => Some(p),
            Err(_) => None,
        };
        let pem = String::from_str(key_config.pem.as_str());
        assert(pem@ == keys[k].pem@);
        let t = key.key_type();
        proof {
            assert(call_ensures(B::BackendKey::key_type, (&key,), t));
        }
        match t {
            ApiKeyType::Rsa => {
                let info = RsaKeyInfo {
                    id: key_config.id,
                    label: String::from_str(key_config.label.as_str()),
                    priv_pem: pem,
                    num_bits: key.modulus_bits() as u64,
                    modulus: key.modulus(),
                    public_exponent: key.public_exponent(),
                };
                objects.push(Object::new_rsa_private_key(info));
                match public_key {
                    Some(pub_key) => {
                        let pub_info = RsaKeyInfo {
                            id: key_config.id,
                            label: String::from_str(key_config.label.as_str()),
                            priv_pem: String::new(),
                            num_bits: pub_key.modulus_bits() as u64,
                            modulus: pub_key.modulus(),
                            public_exponent: pub_key.public_exponent(),
                        };
                        objects.push(Object::new_rsa_public_key(pub_info));
                    },
                    None => {},
                }
            },
            ApiKeyType::Ec => {
                let info = EcKeyInfo {
                    id: key_config.id,
                    label: String::from_str(key_config.label.as_str()),
                    priv_pem: pem,
                    params_x962: key.params_x962(),
                    point_q_x962: key.point_q_x962(),
                };
                objects.push(Object::new_ec_private_key(info));
                match public_key {
                    Some(pub_key) => {
                        let pub_info = EcKeyInfo {
                            id: key_config.id,
                            label: String::from_str(key_config.label.as_str()),
                            priv_pem: String::new(),
                            params_x962: pub_key.params_x962(),
                            point_q_x962: pub_key.point_q_x962(),
                        };
                        objects.push(Object::new_ec_public_key(pub_info));
                    },
                    None => {},
                }
            },
        }
        proof {
            assert forall|i: int|
                start.len() <= i < objects@.len() implies provisioned_object(
                (#[trigger] objects@[i]).spec_kind(),
                keys,
            ) by {
                let kind = objects@[i].spec_kind();
                if kind is RsaPrivateKey || kind is EcPrivateKey {
                    assert(keys[k].pem@ == keys[k].pem@);
                }
            }
        }
        let ghost keys_end = objects@;
        match &key_config.cert_pem {
            Some(x509_pem) => {
                let chain_str = x509_pem.as_str();
                let cr = backend.load_certificates(chain_str);
                proof {
                    assert(call_ensures(B::load_certificates, (backend, chain_str), cr));
                }
                match cr {
                    Ok(certs) => {
                        Self::push_cert_objects(objects, &certs, key_config.id, Ghost(keys));
                        proof {
                            let chain = objects@.subrange(keys_end.len() as int, objects@.len() as int);
                            assert forall|i: int| 0 <= i < chain.len() implies chain_object(
                                #[trigger] chain[i].spec_kind(),
                                i as nat,
                                key_config.id,
                            ) && cert_object_from(chain[i].spec_kind(), certs@[i]) by {
                                assert(chain[i] == objects@[keys_end.len() + i]);
                            }
                            assert(call_ensures(B::load_certificates, (backend, chain_str), Ok::<Vec<B::BackendCert>, crate::p11::api::Error>(certs)));
                        }
                    },
                    Err(_) => {},
                }
                proof {
                    let chain = objects@.subrange(keys_end.len() as int, objects@.len() as int);
                    assert(chain_segment(backend, keys[k], chain));
                }
            },
            None => {
                proof {
                    assert(chain_segment(backend, keys[k], objects@.subrange(keys_end.len() as int, objects@.len() as int)));
                }
            },
        }
        proof {
            let seg = objects@.subrange(start.len() as int, objects@.len() as int);
            let chain = objects@.subrange(keys_end.len() as int, objects@.len() as int);
            assert(seg[0] == objects@[start.len() as int]);
            if pr is Ok {
                assert(keys_end.len() == start.len() + 2);
                assert(seg[1] == objects@[start.len() as int + 1]);
                assert(seg.subrange(2, seg.len() as int) =~= chain);
            } else {
                assert(keys_end.len() == start.len() + 1);
                assert(seg.subrange(1, seg.len() as int) =~= chain);
            }
            assert(call_ensures(B::load_private_key, (backend, pem_str), Ok::<B::BackendKey, crate::p11::api::Error>(key)));
        }
    }

    /// Appends an object for each certificate of a chain: the first is the
    /// token's, with identifier `id`; the others are authorities, with the
    /// identifier advanced by their position (modulo 256).
    fn push_cert_objects<C: Certificate>(
        objects: &mut Vec<Object>,
        certs: &Vec<C>,
        id: u8,
        Ghost(keys): Ghost<Seq<PrivateKeyConfig>>,
    )
        ensures
            final(objects)@.len() == old(objects)@.len() + certs@.len(),
            forall|i: int| 0 <= i < old(objects)@.len() ==> final(objects)@[i] == old(objects)@[i],
            forall|i: int|
                old(objects)@.len() <= i < final(objects)@.len() ==> (#[trigger] final(objects)@[i]).spec_kind()
                    is Certificate && provisioned_object(final(objects)@[i].spec_kind(), keys),
            forall|i: int|
                0 <= i < certs@.len() ==> chain_object(
                    (#[trigger] final(objects)@[old(objects)@.len() + i]).spec_kind(),
                    i as nat,
                    id,
                ) && cert_object_from(final(objects)@[old(objects)@.len() + i].spec_kind(), certs@[i]),
    {
        let ghost start = objects@;
        let mut pos: usize = 0;
        while pos < certs.len()
            invariant
                pos <= certs@.len(),
                objects@.len() == start.len() + pos,
                forall|i: int| 0 <= i < start.len() ==> objects@[i] == start[i],
                forall|i: int|
                    start.len() <= i < objects@.len() ==> (#[trigger] objects@[i]).spec_kind() is Certificate
                        && provisioned_object(objects@[i].spec_kind(), keys),
                forall|i: int|
                    0 <= i < pos ==> chain_object((#[trigger] objects@[start.len() + i]).spec_kind(), i as nat, id)
                        && cert_object_from(objects@[start.len() + i].spec_kind(), certs@[i]),
            decreases certs@.len() - pos,
        {
            let cert = &certs[pos];
            let categ = if pos == 0 {
                CertCategory::Token
            } else {
                CertCategory::Authority
            };
            let cert_id: u8 = if pos == 0 {
                id
            } else {
                id.wrapping_add(#[verifier::truncate] (pos as u8))
            };
            let label = String::from_str("acm-ne-cert-").concat(usize_to_decimal(pos).as_str());
            let subject_der = cert.subject();
            let issuer_der = cert.issuer();
            let serno_der = cert.serial_number();
            let cert_der = cert.to_der();
            proof {
                assert(call_ensures(C::subject, (cert,), subject_der));
                assert(call_ensures(C::issuer, (cert,), issuer_der));
                assert(call_ensures(C::serial_number, (cert,), serno_der));
                assert(call_ensures(C::to_der, (cert,), cert_der));
            }
            let info = CertInfo {
                categ,
                id: cert_id,
                label,
                subject_der: subject_der,
                issuer_der: issuer_der,
                serno_der: serno_der,
                cert_der: cert_der,
            };
            objects.push(Object::new_x509_cert(info));
            proof {
                assert(cert_label(pos as nat) == info.label@);
                if pos > 0 {
                    assert((#[verifier::truncate] (pos as u8)) == pos % 256) by (bit_vector);
                    vstd::arithmetic::div_mod::lemma_add_mod_noop(id as int, pos as int, 256);
                    assert(cert_id as int == (id + pos) % 256);
                }
                assert(chain_object(objects@[start.len() + pos].spec_kind(), pos as nat, id));
                assert(cert_object_from(objects@[start.len() + pos].spec_kind(), certs@[pos as int]));
            }
            pos = pos + 1;
        }
    }

    /// Every object with its handle, in handle order.
    pub fn enumerate(&self) -> (r: Vec<(ObjectHandle, &Object)>)
        ensures
            r@.len() == self.spec_objects().len(),
            forall|i: int|
                0 <= i < r@.len() ==> (#[trigger] r@[i]).0 == ObjectHandle(i as usize) && *r@[i].1
                    == self.spec_objects()[i],
    {
        let mut out: Vec<(ObjectHandle, &Object)> = Vec::new();
        let mut i: usize = 0;
        while i < self.objects.len()
            invariant
                i <= self.objects@.len(),
                out@.len() == i,
                forall|j: int|
                    0 <= j < out@.len() ==> (#[trigger] out@[j]).0 == ObjectHandle(j as usize)
                        && *out@[j].1 == self.objects@[j],
            decreases self.objects@.len() - i,
        {
            out.push((ObjectHandle(i), &self.objects[i]));
            i = i + 1;
        }
        out
    }

    /// The object behind `handle`, if there is one.
    pub fn object(&self, handle: ObjectHandle) -> (r: Option<&Object>)
        ensures
            handle.0 < self.spec_objects().len() ==> (r matches Some(o) && *o == self.spec_objects()[handle.0 as int]),
            handle.0 >= self.spec_objects().len() ==> r is None,
    {
        if self.objects.len() <= handle.0 {
            return None;
        }
        Some(&self.objects[handle.0])
    }

    /// The token PIN.
    pub fn token_pin(&self) -> (r: &str)
        ensures
            r@ == self.spec_pin(),
    {
        self.token_pin.as_str()
    }
}

} // verus!
