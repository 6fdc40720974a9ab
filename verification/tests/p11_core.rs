use vtok_p11::p11::api::{
    CertCategory, Certificate as P11Certificate, DigestContext as P11DigestContext, EcKey, Error as ApiError,
    Key as P11Key, KeyType as P11KeyType, MechDigest, Mechanism as P11Mechanism, RsaKey,
    SignContext as P11SignContext, VerifyContext as P11VerifyContext, VtokBackend,
};
use vtok_p11::p11::bridge::context::{next_op_state, BridgeDigestContext, BridgeSignContext, OpCtxState};
use vtok_p11::p11::bridge::crypto::{
    CryptoBridge, CryptoError, DecryptCtx, DigestCtx, DirectDecryptCtx, DirectEncryptCtx, EncryptCtx,
};
use vtok_p11::p11::bridge::key::{key_for_mechanism, BridgeKey};
use vtok_p11::p11::bridge::{backend_error_to_p11_error, backend_result_to_p11_result};
use vtok_p11::p11::ck::{
    Error, CKR_ATTRIBUTE_SENSITIVE, CKR_GENERAL_ERROR, CKR_MECHANISM_INVALID, CKR_OPERATION_NOT_INITIALIZED,
    CKR_SIGNATURE_INVALID,
};
use vtok_p11::p11::compat::{KeyAlgo, Pkey, X509Chain, X509};
use vtok_p11::p11::db::{
    CertInfo, Db, EcKeyInfo, KeyInfo, Object, ObjectHandle, ObjectKind, PrivateKeyConfig, RsaKeyInfo, TokenConfig,
};
use vtok_p11::p11::ops;
use vtok_p11::p11::session::{Session, SessionState};
use vtok_p11::traits::key::Key;
use vtok_p11::types::error::BackendError;
use vtok_p11::types::key::{KeyAlgorithm, KeyType};


struct TestKey;

impl RsaKey for TestKey {
    fn modulus(&self) -> Vec<u8> {
        vec![0u8; 256]
    }
    fn public_exponent(&self) -> Vec<u8> {
        vec![1, 0, 1]
    }
    fn modulus_bits(&self) -> usize {
        2048
    }
}

impl EcKey for TestKey {
    fn params_x962(&self) -> Vec<u8> {
        vec![]
    }
    fn point_q_x962(&self) -> Vec<u8> {
        vec![]
    }
}

impl P11Key for TestKey {
    fn key_type(&self) -> P11KeyType {
        P11KeyType::Rsa
    }
    fn public_key(&self) -> Result<Self, ApiError> {
        Ok(TestKey)
    }
}

struct TestCert;

impl P11Certificate for TestCert {
    fn category(&self) -> CertCategory {
        CertCategory::Token
    }
    fn subject(&self) -> Vec<u8> {
        vec![]
    }
    fn issuer(&self) -> Vec<u8> {
        vec![]
    }
    fn serial_number(&self) -> Vec<u8> {
        vec![]
    }
    fn to_der(&self) -> Vec<u8> {
        vec![]
    }
}

struct TestCtx;

impl P11DigestContext for TestCtx {
    fn update(&mut self, _data: &[u8]) -> Result<(), ApiError> {
        Ok(())
    }
    fn finalize(self) -> Result<Vec<u8>, ApiError> {
        Ok(vec![1])
    }
}

impl P11SignContext for TestCtx {
    fn update(&mut self, _data: &[u8]) -> Result<(), ApiError> {
        Ok(())
    }
    fn finalize(self) -> Result<Vec<u8>, ApiError> {
        Ok(vec![2])
    }
}

impl P11VerifyContext for TestCtx {
    fn update(&mut self, _data: &[u8]) -> Result<(), ApiError> {
        Ok(())
    }
    fn finalize(self, _signature: &[u8]) -> Result<(), ApiError> {
        Ok(())
    }
}

/// Loads every PEM but "BAD-PEM", offers only SHA-256 digests and refuses
/// to sign or verify with raw RSA.
struct TestBackend;

impl VtokBackend for TestBackend {
    type BackendKey = TestKey;
    type BackendCert = TestCert;
    type DigestCtx = TestCtx;
    type SignCtx = TestCtx;
    type VerifyCtx = TestCtx;

    fn generate_rsa_key(&self, _bits: usize, _e: Option<&[u8]>) -> Result<TestKey, ApiError> {
        Ok(TestKey)
    }
    fn generate_ec_key(&self, _oid: &[u8]) -> Result<TestKey, ApiError> {
        Err(ApiError::Unsupported)
    }
    fn load_private_key(&self, pem: &str) -> Result<TestKey, ApiError> {
        if pem == "BAD-PEM" {
            Err(ApiError::KeyImport)
        } else {
            Ok(TestKey)
        }
    }
    fn load_certificates(&self, _pem: &str) -> Result<Vec<TestCert>, ApiError> {
        Ok(vec![TestCert])
    }
    fn digest(&self, _m: &P11Mechanism, _d: &[u8]) -> Result<Vec<u8>, ApiError> {
        Ok(vec![])
    }
    fn encrypt(&self, _m: &P11Mechanism, _k: &TestKey, _p: &[u8]) -> Result<Vec<u8>, ApiError> {
        Ok(vec![])
    }
    fn decrypt(&self, _m: &P11Mechanism, _k: &TestKey, _c: &[u8]) -> Result<Vec<u8>, ApiError> {
        Ok(vec![])
    }
    fn sign(&self, _m: &P11Mechanism, _k: &TestKey, _d: &[u8]) -> Result<Vec<u8>, ApiError> {
        Ok(vec![])
    }
    fn verify(&self, _m: &P11Mechanism, _k: &TestKey, _d: &[u8], _s: &[u8]) -> Result<(), ApiError> {
        Ok(())
    }
    fn digest_init(&self, m: &P11Mechanism) -> Result<TestCtx, ApiError> {
        match m {
            P11Mechanism::Digest(MechDigest::Sha256) => Ok(TestCtx),
            _ => Err(ApiError::BadMechanism),
        }
    }
    fn sign_init(&self, m: &P11Mechanism, _k: &TestKey) -> Result<TestCtx, ApiError> {
        match m {
            P11Mechanism::RsaX509 => Err(ApiError::Sign),
            _ => Ok(TestCtx),
        }
    }
    fn verify_init(&self, m: &P11Mechanism, _k: &TestKey) -> Result<TestCtx, ApiError> {
        match m {
            P11Mechanism::RsaX509 => Err(ApiError::Verify),
            _ => Ok(TestCtx),
        }
    }
    fn generate_random(&self, len: usize) -> Result<Vec<u8>, ApiError> {
        Ok(vec![0u8; len])
    }
}

fn rsa_info(pem: &str) -> RsaKeyInfo {
    RsaKeyInfo {
        priv_pem: pem.to_string(),
        id: 1,
        label: "rsa".to_string(),
        num_bits: 2048,
        modulus: vec![0u8; 256],
        public_exponent: vec![1, 0, 1],
    }
}

fn ec_info(pem: &str) -> EcKeyInfo {
    EcKeyInfo {
        priv_pem: pem.to_string(),
        id: 2,
        label: "ec".to_string(),
        params_x962: vec![6, 8],
        point_q_x962: vec![4, 1, 2],
    }
}

fn sample_db() -> Db {
    let objects = vec![
        Object::new_mechanism(P11Mechanism::RsaX509),
        Object::new_rsa_private_key(rsa_info("RSA-PRIV")),
        Object::new_rsa_public_key(rsa_info("RSA-PUB")),
        Object::new_ec_private_key(ec_info("EC-PRIV")),
        Object::new_ec_public_key(ec_info("EC-PUB")),
        Object::new_x509_cert(CertInfo {
            categ: vtok_p11::p11::api::CertCategory::Token,
            id: 1,
            label: "cert".to_string(),
            subject_der: vec![1],
            issuer_der: vec![2],
            serno_der: vec![3],
            cert_der: vec![4],
        }),
    ];
    Db::new("1234".to_string(), objects)
}

#[test]
fn compat_fixed_values() {
    let pkey = Pkey::from_private_pem("anything").expect("pem");
    assert!(matches!(pkey.algo(), Ok(KeyAlgo::Rsa)));
    assert_eq!(pkey.num_bits().ok(), Some(2048));
    assert_eq!(pkey.rsa_modulus().ok(), Some(vec![0u8; 256]));
    assert_eq!(pkey.rsa_public_exponent().ok(), Some(vec![1, 0, 1]));
    assert_eq!(pkey.ec_params_x962().ok().map(|v| v.len()), Some(32));
    assert_eq!(pkey.ec_point_q_x962().ok().map(|v| v.len()), Some(65));
    let cert = X509 {};
    assert_eq!(cert.subject_name().ok().map(|v| v.len()), Some(32));
    assert_eq!(cert.issuer().ok().map(|v| v.len()), Some(32));
    assert_eq!(cert.serial_no().ok().map(|v| v.len()), Some(16));
    assert_eq!(cert.to_der().ok().map(|v| v.len()), Some(256));
    let chain = X509Chain::chain_from_pem("chain").expect("chain");
    assert!(!chain.multiple_certs());
    assert!(chain.verify_chain().is_ok());
    assert!(chain.verify(pkey).is_ok());
    let listed = chain.enumerate();
    assert_eq!(listed.len(), 1);
    assert_eq!(listed[0].0, 0);
}

#[test]
fn db_lookup_and_enumeration() {
    let db = sample_db();
    assert_eq!(db.token_pin(), "1234");
    let all = db.enumerate();
    assert_eq!(all.len(), 6);
    for (i, (h, _)) in all.iter().enumerate() {
        assert_eq!(h.0, i);
    }
    assert!(db.object(ObjectHandle(1)).map(|o| o.is_private()).unwrap_or(false));
    assert!(db.object(ObjectHandle(0)).map(|o| o.is_mechanism()).unwrap_or(false));
    assert!(db.object(ObjectHandle(6)).is_none());
}

#[test]
fn session_enumeration_hides_private_objects_until_login() {
    let mut session = Session::new(7, sample_db(), SessionState::RoPublic, TestBackend);
    assert!(!session.enum_active());
    session.enum_init();
    assert!(session.enum_active());
    let first = session.enum_next_chunk(2).expect("active");
    assert_eq!(first, vec![ObjectHandle(2), ObjectHandle(4)]);
    let second = session.enum_next_chunk(2).expect("active");
    assert_eq!(second, vec![ObjectHandle(5)]);
    let third = session.enum_next_chunk(2).expect("active");
    assert!(third.is_empty());
    assert!(session.enum_finalize().is_ok());
    assert_eq!(session.enum_finalize(), Err(Error::CkError(CKR_OPERATION_NOT_INITIALIZED)));
    assert!(session.enum_next_chunk(1).is_none());

    session.set_state(SessionState::RoUser);
    session.enum_init();
    let all = session.enum_next_chunk(100).expect("active");
    assert_eq!(all, vec![ObjectHandle(1), ObjectHandle(2), ObjectHandle(3), ObjectHandle(4), ObjectHandle(5)]);
}

#[test]
fn session_info_and_login() {
    let session = Session::new(3, sample_db(), SessionState::RoPublic, TestBackend);
    let info = session.ck_info();
    assert_eq!(info.slot_id, 3);
    assert_eq!(info.state, 0);
    assert_eq!(info.flags, 4);
    assert_eq!(info.device_error, 0);
    assert_eq!(session.check_user_logged_in(), Err(Error::UserNotLoggedIn));
    let session = Session::new(3, sample_db(), SessionState::RoUser, TestBackend);
    assert_eq!(session.ck_info().state, 1);
    assert!(session.check_user_logged_in().is_ok());
}

#[test]
fn session_key_lookup_by_mechanism() {
    let session = Session::new(0, sample_db(), SessionState::RoUser, TestBackend);
    assert_eq!(session.key_pem_for_mech(&P11Mechanism::RsaPkcs(None), ObjectHandle(1)), Ok("RSA-PRIV"));
    assert_eq!(session.key_pem_for_mech(&P11Mechanism::RsaX509, ObjectHandle(2)), Ok("RSA-PUB"));
    assert_eq!(session.key_pem_for_mech(&P11Mechanism::Ecdsa(None), ObjectHandle(3)), Ok("EC-PRIV"));
    assert_eq!(session.key_pem_for_mech(&P11Mechanism::Ecdsa(None), ObjectHandle(1)), Err(Error::KeyTypeInconsistent));
    assert_eq!(session.key_pem_for_mech(&P11Mechanism::RsaX509, ObjectHandle(9)), Err(Error::KeyHandleInvalid));
    assert_eq!(
        session.key_pem_for_mech(&P11Mechanism::Digest(MechDigest::Sha256), ObjectHandle(1)),
        Err(Error::KeyTypeInconsistent)
    );
}

#[test]
fn backend_errors_map_to_pkcs11_errors() {
    assert_eq!(backend_error_to_p11_error(BackendError::UnsupportedMechanism("x".to_string())), Error::MechanismInvalid);
    assert_eq!(backend_error_to_p11_error(BackendError::InvalidKey("x".to_string())), Error::KeyHandleInvalid);
    assert_eq!(backend_error_to_p11_error(BackendError::KeySensitive), Error::CkError(CKR_ATTRIBUTE_SENSITIVE));
    assert_eq!(
        backend_error_to_p11_error(BackendError::VerifyOperation("x".to_string())),
        Error::CkError(CKR_SIGNATURE_INVALID)
    );
    assert_eq!(backend_error_to_p11_error(BackendError::ContextFinalized), Error::OperationNotInitialized);
    assert_eq!(backend_error_to_p11_error(BackendError::Timeout), Error::GeneralError);
    assert_eq!(backend_result_to_p11_result(Ok::<u8, BackendError>(5)), Ok(5));
    assert_eq!(
        backend_result_to_p11_result(Err::<u8, BackendError>(BackendError::OutOfMemory)),
        Err(Error::CkError(0x0002))
    );
}

#[test]
fn bridge_key_attributes_and_export() {
    let mut key = BridgeKey::from_pem("PEM".to_string(), KeyType::Public, KeyAlgorithm::Rsa2048);
    assert_eq!(key.key_size(), 2048);
    assert!(key.is_extractable());
    assert!(!key.is_sensitive());
    assert_eq!(key.export_key().ok(), Some(b"PEM".to_vec()));
    assert_eq!(key.export_public_key().ok(), Some(b"PEM".to_vec()));
    assert_eq!(key.get_attribute("algorithm"), Some(b"RSA-2048".to_vec()));
    assert_eq!(key.get_attribute("key_type"), Some(b"Public".to_vec()));
    assert_eq!(key.get_attribute("key_size"), Some(b"2048".to_vec()));
    assert!(!key.has_attribute("label"));

    assert!(key.set_attribute("label", b"my key".to_vec()).is_ok());
    assert_eq!(key.label(), Some("my key"));
    assert_eq!(key.get_attribute("label"), Some(b"my key".to_vec()));
    assert!(key.set_attribute("key_id", vec![9, 9]).is_ok());
    assert_eq!(key.key_id(), Some(&[9u8, 9u8][..]));
    assert!(matches!(key.set_attribute("label", vec![0xff, 0xfe]), Err(BackendError::InvalidKeyData(_))));
    assert_eq!(key.label(), Some("my key"));
    assert!(matches!(key.set_attribute("CKA_CLASS", vec![1]), Err(BackendError::ReadOnlyAttribute(_))));
    assert_eq!(key.fingerprint().map(|f| f.len()).ok(), Some(8));
    assert_eq!(key.fingerprint().ok(), key.fingerprint().ok());

    let private = BridgeKey::from_pem("SECRET".to_string(), KeyType::Private, KeyAlgorithm::EcdsaP256);
    assert!(private.is_sensitive());
    assert!(matches!(private.export_key(), Err(BackendError::KeySensitive)));
}

#[test]
fn keys_for_mechanisms() {
    let rsa_priv = Object::new_rsa_private_key(rsa_info("A"));
    let ec_pub = Object::new_ec_public_key(ec_info("B"));
    let key = key_for_mechanism(&P11Mechanism::RsaPkcs(None), &rsa_priv, true).expect("rsa");
    assert_eq!(key.pem_data(), "A");
    assert_eq!(key.algorithm(), KeyAlgorithm::Rsa2048);
    assert_eq!(key.key_type(), KeyType::Private);
    assert!(matches!(key_for_mechanism(&P11Mechanism::RsaPkcs(None), &rsa_priv, false), Err(Error::KeyTypeInconsistent)));
    let key = key_for_mechanism(&P11Mechanism::Ecdsa(None), &ec_pub, false).expect("ec");
    assert_eq!(key.algorithm(), KeyAlgorithm::EcdsaP256);
    assert!(matches!(
        key_for_mechanism(&P11Mechanism::Digest(MechDigest::Sha1), &ec_pub, false),
        Err(Error::MechanismInvalid)
    ));
    let from_obj = BridgeKey::from_p11_object(&ec_pub).expect("ec object");
    assert_eq!(from_obj.key_type(), KeyType::Public);
    assert!(matches!(BridgeKey::from_p11_object(&Object::new_mechanism(P11Mechanism::RsaX509)), Err(Error::KeyTypeInconsistent)));
}

#[test]
fn operation_state_machine() {
    assert_eq!(next_op_state(OpCtxState::Initialized, OpCtxState::SinglepartActive).ok(), Some(OpCtxState::SinglepartActive));
    assert_eq!(next_op_state(OpCtxState::Initialized, OpCtxState::MultipartActive).ok(), Some(OpCtxState::MultipartActive));
    assert_eq!(next_op_state(OpCtxState::MultipartActive, OpCtxState::MultipartReady).ok(), Some(OpCtxState::MultipartReady));
    match next_op_state(OpCtxState::SinglepartActive, OpCtxState::MultipartActive) {
        Err(BackendError::InvalidState(m)) => {
            assert_eq!(m, "Cannot transition from SinglepartActive to MultipartActive")
        },
        _ => panic!("transition must be refused"),
    }
    assert!(next_op_state(OpCtxState::MultipartReady, OpCtxState::Initialized).is_err());

    let mut ctx = BridgeDigestContext::new((), 0x250).expect("sha256");
    assert!(ctx.enter_state(OpCtxState::MultipartActive).is_ok());
    assert!(ctx.enter_state(OpCtxState::SinglepartActive).is_err());
    assert!(ctx.enter_state(OpCtxState::MultipartReady).is_ok());
}

#[test]
fn bridge_digest_and_sign_contexts() {
    let mut ctx = BridgeDigestContext::new((), 0x260).expect("sha384");
    assert_eq!(ctx.len(), 48);
    ctx.update(b"abc").expect("update");
    assert_eq!(ctx.finalize().ok(), Some(vec![0u8; 48]));
    match BridgeDigestContext::new((), 0x999) {
        Err(BackendError::UnsupportedMechanism(m)) => assert_eq!(m, "Digest mechanism: 2457"),
        _ => panic!("unknown digest must be refused"),
    }

    let key = BridgeKey::from_pem("K".to_string(), KeyType::Private, KeyAlgorithm::EcdsaP256);
    let ctx = BridgeSignContext::new_direct((), &P11Mechanism::Ecdsa(None), key).expect("sign");
    assert_eq!(ctx.sig_len_ck(), 64);
    assert_eq!(ctx.sign(b"data").ok(), Some(vec![0u8; 64]));
}

#[test]
fn crypto_bridge_contexts() {
    let bridge = CryptoBridge::new(());
    assert!(bridge.create_digest_context(0x270).is_ok());
    assert!(matches!(bridge.create_digest_context(0x1), Err(Error::MechanismInvalid)));
    let rsa_priv = Object::new_rsa_private_key(rsa_info("A"));
    let ctx = bridge.create_direct_sign_context(&P11Mechanism::RsaPkcs(None), &rsa_priv).expect("sign");
    assert_eq!(ctx.sig_len_ck(), 256);
    assert!(matches!(
        bridge.create_direct_verify_context(&P11Mechanism::RsaPkcs(None), &rsa_priv),
        Err(Error::KeyTypeInconsistent)
    ));
    assert!(DigestCtx::<()>::new(0x250).is_err());

    let key = BridgeKey::from_pem("K".to_string(), KeyType::Secret, KeyAlgorithm::Aes256);
    let enc = DirectEncryptCtx::new(&P11Mechanism::RsaX509, key).expect("enc");
    assert_eq!(enc.len(), 256);
    assert_eq!(enc.encrypt(&[1, 2, 3]).ok(), Some(vec![0u8; 19]));
    let key = BridgeKey::from_pem("K".to_string(), KeyType::Secret, KeyAlgorithm::Aes256);
    let dec = DirectDecryptCtx::new(&P11Mechanism::RsaX509, key).expect("dec");
    assert_eq!(dec.decrypt(&[7u8; 20]).ok(), Some(vec![0u8; 4]));
    let key = BridgeKey::from_pem("K".to_string(), KeyType::Secret, KeyAlgorithm::Aes256);
    let dec = DirectDecryptCtx::new(&P11Mechanism::RsaX509, key).expect("dec");
    assert_eq!(dec.decrypt(&[7u8; 3]).ok(), Some(vec![]));

    assert_eq!(CryptoError::from(BackendError::UnsupportedMechanism("m".to_string())), CryptoError::BadMech);
    assert_eq!(CryptoError::from(BackendError::OperationActive), CryptoError::OperationActive);
    assert_eq!(CryptoError::from(BackendError::Timeout), CryptoError::GeneralError);
}

#[test]
fn pkcs11_mechanism_codes_round_trip() {
    for m in [
        P11Mechanism::RsaX509,
        P11Mechanism::RsaPkcs(None),
        P11Mechanism::RsaPkcsPss(None, None),
        P11Mechanism::Ecdsa(None),
        P11Mechanism::Digest(MechDigest::Sha256),
    ] {
        assert_eq!(P11Mechanism::from_ckraw_mech(&m.ck_type()), Some(m));
    }
    assert_eq!(P11Mechanism::from_ckraw_mech(&0x1234), None);
}

#[test]
fn session_operation_contexts() {
    let mut objects = Vec::new();
    objects.push(Object::new_rsa_private_key(rsa_info("GOOD-PEM")));
    objects.push(Object::new_rsa_private_key(rsa_info("BAD-PEM")));
    objects.push(Object::new_ec_private_key(ec_info("EC")));
    let db = Db::new("0000".to_string(), objects);
    let mut session = Session::new(1, db, SessionState::RoPublic, TestBackend);

    assert!(session.digest_init(&P11Mechanism::Digest(MechDigest::Sha256)).is_ok());
    assert!(session.digest_ctx().is_some());
    assert_eq!(session.digest_init(&P11Mechanism::Digest(MechDigest::Sha1)), Err(Error::CkError(CKR_MECHANISM_INVALID)));
    let ctx = session.digest_ctx().take().expect("digest in progress");
    assert_eq!(P11DigestContext::finalize(ctx).ok(), Some(vec![1]));
    assert!(session.digest_ctx().is_none());

    let mech = P11Mechanism::RsaPkcs(Some(MechDigest::Sha256));
    assert_eq!(session.sign_init(&mech, ObjectHandle(0)), Err(Error::UserNotLoggedIn));
    session.set_state(SessionState::RoUser);
    assert!(session.sign_init(&mech, ObjectHandle(0)).is_ok());
    assert!(session.sign_ctx().is_some());
    assert_eq!(session.sign_init(&mech, ObjectHandle(1)), Err(Error::KeyHandleInvalid));
    assert_eq!(session.sign_init(&mech, ObjectHandle(2)), Err(Error::KeyTypeInconsistent));
    assert_eq!(session.sign_init(&mech, ObjectHandle(9)), Err(Error::KeyHandleInvalid));
    assert_eq!(session.sign_init(&P11Mechanism::RsaX509, ObjectHandle(0)), Err(Error::CkError(CKR_GENERAL_ERROR)));
    assert!(session.sign_ctx().is_some());

    assert!(session.verify_init(&P11Mechanism::Ecdsa(None), ObjectHandle(2)).is_ok());
    assert!(session.verify_ctx().take().is_some());
    assert_eq!(session.verify_init(&P11Mechanism::RsaX509, ObjectHandle(0)), Err(Error::CkError(CKR_GENERAL_ERROR)));
    assert!(session.verify_ctx().is_none());
}

#[test]
fn database_from_token_configuration() {
    let config = TokenConfig {
        pin: "4321".to_string(),
        private_keys: vec![
            PrivateKeyConfig { id: 5, label: "k1".to_string(), pem: "PEM-1".to_string(), cert_pem: Some("C".to_string()) },
            PrivateKeyConfig { id: 6, label: "k2".to_string(), pem: "BAD-PEM".to_string(), cert_pem: None },
        ],
    };
    let mechanisms = [P11Mechanism::RsaX509, P11Mechanism::Ecdsa(None)];
    let db = Db::from_token_config(&config, &mechanisms, &TestBackend).expect("database");
    assert_eq!(db.token_pin(), "4321");
    let objects = db.enumerate();
    assert_eq!(objects.len(), 5);
    assert!(matches!(objects[0].1.kind(), ObjectKind::Mechanism(P11Mechanism::RsaX509)));
    assert!(matches!(objects[1].1.kind(), ObjectKind::Mechanism(P11Mechanism::Ecdsa(None))));
    assert!(matches!(objects[2].1.kind(), ObjectKind::RsaPrivateKey(p) if p == "PEM-1"));
    assert!(matches!(objects[3].1.kind(), ObjectKind::RsaPublicKey(p) if p.is_empty()));
    match objects[2].1.key_info() {
        KeyInfo::Rsa(i) => {
            assert_eq!(i.id, 5);
            assert_eq!(i.label, "k1");
            assert_eq!(i.priv_pem, "PEM-1");
            assert_eq!(i.num_bits, 2048);
            assert_eq!(i.modulus.len(), 256);
        },
        _ => panic!("RSA key information expected"),
    }
    match objects[3].1.key_info() {
        KeyInfo::Rsa(i) => {
            assert_eq!(i.id, 5);
            assert!(i.priv_pem.is_empty());
        },
        _ => panic!("RSA key information expected"),
    }
    assert!(matches!(objects[0].1.key_info(), KeyInfo::NotAKey));
    match objects[4].1.kind() {
        ObjectKind::Certificate(c) => {
            assert_eq!(c.label, "acm-ne-cert-0");
            assert_eq!(c.id, 5);
            assert!(matches!(c.categ, CertCategory::Token));
            assert!(c.cert_der.is_empty());
        },
        _ => panic!("certificate object expected"),
    }
}

#[test]
fn pkcs11_operation_functions() {
    let mut objects = Vec::new();
    objects.push(Object::new_rsa_private_key(rsa_info("GOOD-PEM")));
    let db = Db::new("0000".to_string(), objects);
    let mut session = Session::new(1, db, SessionState::RoPublic, TestBackend);

    assert_eq!(ops::digest(&mut session, b"x"), Err(CKR_OPERATION_NOT_INITIALIZED));
    assert_eq!(ops::digest_init(&mut session, 0x1234), CKR_MECHANISM_INVALID);
    assert_eq!(ops::digest_init(&mut session, 0x220), CKR_MECHANISM_INVALID);
    assert_eq!(ops::digest_init(&mut session, 0x250), 0);
    assert_eq!(ops::digest_update(&mut session, b"abc"), 0);
    assert_eq!(ops::digest_final(&mut session), Ok(vec![1]));
    assert_eq!(ops::digest_final(&mut session), Err(CKR_OPERATION_NOT_INITIALIZED));
    assert_eq!(ops::digest_update(&mut session, b"abc"), CKR_OPERATION_NOT_INITIALIZED);

    assert_eq!(ops::sign_init(&mut session, 0x1, ObjectHandle(0)), 0x0101);
    session.set_state(SessionState::RoUser);
    assert_eq!(ops::sign_init(&mut session, 0x1, ObjectHandle(0)), 0);
    assert_eq!(ops::sign_update(&mut session, b"part"), 0);
    assert_eq!(ops::sign_final(&mut session), Ok(vec![2]));
    assert_eq!(ops::sign(&mut session, b"data"), Err(CKR_OPERATION_NOT_INITIALIZED));
    assert_eq!(ops::sign_init(&mut session, 0x3, ObjectHandle(0)), CKR_GENERAL_ERROR);
    assert_eq!(ops::sign_init(&mut session, 0x1041, ObjectHandle(0)), 0x0063);
    assert_eq!(ops::sign_init(&mut session, 0x1, ObjectHandle(4)), 0x0060);

    assert_eq!(ops::verify_init(&mut session, 0x1, ObjectHandle(0)), 0);
    assert_eq!(ops::verify_update(&mut session, b"part"), 0);
    assert_eq!(ops::verify_final(&mut session, b"sig"), 0);
    assert_eq!(ops::verify(&mut session, b"data", b"sig"), CKR_OPERATION_NOT_INITIALIZED);

    assert_eq!(ops::decrypt_init(&mut session, 0x1, ObjectHandle(0)), 0x0054);
    assert_eq!(ops::decrypt_init(&mut session, 0x9999, ObjectHandle(0)), CKR_MECHANISM_INVALID);
    assert_eq!(ops::decrypt(&mut session, b"c"), 0x0054);
    assert_eq!(Error::KeyTypeInconsistent.to_ck_rv(), 0x0063);
}
