use vtok_p11::mock::backend::MockBackend;
use vtok_p11::mock::config::MockConfig;
use vtok_p11::mock::context::{MockDigestContext, MockSignContext};
use vtok_p11::mock::key::{encode, MockKey};
use vtok_p11::mock::provider::MockProvider;
use vtok_p11::mock::utils::{
    assert_bytes_equal, create_test_config, generate_test_data, TestScenarios, TestVectorCollection,
    MockDataFactory,
};
use vtok_p11::traits::context::{DecryptContext, DigestContext, EncryptContext, VerifyContext};
use vtok_p11::traits::key::{CertKeyUsage, Key, KeyPair};
use vtok_p11::types::error::BackendError;
use vtok_p11::types::key::{KeyAlgorithm, KeyType};
use vtok_p11::types::mechanism::{DigestAlgorithm, Mechanism};

#[test]
fn test_utility_functions() {
    let data1 = generate_test_data(100, 42);
    let data2 = generate_test_data(100, 42);

    assert_eq!(data1, data2, "Deterministic data should be identical");
    assert_eq!(data1.len(), 100);

    let bytes1 = vec![1, 2, 3, 4];
    let bytes2 = vec![1, 2, 3, 4];

    assert_bytes_equal(&bytes1, &bytes2, "Test bytes should be equal");
}

#[test]
fn test_test_vector_generation() {
    let vectors = TestVectorCollection::comprehensive();
    assert!(!vectors.rsa_vectors.is_empty());
    assert!(!vectors.ecdsa_vectors.is_empty());
    assert!(!vectors.symmetric_vectors.is_empty());
    assert!(!vectors.certificate_vectors.is_empty());
}

#[test]
fn generated_test_data_is_seeded() {
    let data = generate_test_data(4, 254);
    assert_eq!(data, vec![254, 255, 0, 1]);
}

#[test]
fn provider_basics() {
    let provider = MockProvider::deterministic().unwrap();
    let info = provider.info();
    assert_eq!(info.name, "Mock PKCS#11 Provider");
    assert_eq!(info.version, "1.0.0");
    assert!(!provider.supported_mechanisms().is_empty());
    assert_eq!(provider.supported_key_algorithms().len(), 6);
    assert_eq!(provider.max_key_size(KeyAlgorithm::Rsa2048), Some(2048));
    assert_eq!(provider.min_key_size(KeyAlgorithm::Ed25519), None);
    assert_eq!(provider.max_sessions(), Some(1024));
    let caps = provider.capabilities();
    assert!(caps.deterministic_mode && caps.error_injection && caps.performance_simulation);
    assert!(!caps.fips_compliant);
}

#[test]
fn key_generation_deterministic() {
    let backend = MockBackend::new().unwrap();
    let kp = backend.generate_keypair(KeyAlgorithm::Rsa2048, None).unwrap();
    assert_eq!(kp.private_key().key_size(), 2048);
    assert_eq!(kp.private_key().key_data().len(), 256);
    assert_eq!(kp.private_key().key_data()[0], (12345u64 % 256) as u8);
    assert!(kp.private_key().can_sign());
    assert!(kp.public_key().can_verify());
    assert_eq!(kp.private_key().label(), Some("Mock RSA Private Key 2048"));
    let ec = backend.generate_keypair(KeyAlgorithm::EcdsaP256, None).unwrap();
    assert_eq!(ec.public_key().key_data().len(), 64);
    let aes = backend.generate_key(KeyAlgorithm::Aes256, None).unwrap();
    assert_eq!(aes.key_type(), KeyType::Secret);
    match backend.generate_keypair(KeyAlgorithm::Ed25519, None) {
        Err(BackendError::UnsupportedAlgorithm(m)) => assert_eq!(m, "Key generation for Ed25519 not supported"),
        other => panic!("unexpected {:?}", other.is_ok()),
    }
    match backend.generate_key(KeyAlgorithm::Aes128, None) {
        Err(BackendError::UnsupportedAlgorithm(m)) => {
            assert_eq!(m, "Symmetric key generation for Aes128 not supported")
        }
        other => panic!("unexpected {:?}", other.is_ok()),
    }
}

#[test]
fn sign_then_verify_deterministic() {
    let backend = MockBackend::new().unwrap();
    let kp = backend.generate_keypair(KeyAlgorithm::Rsa2048, None).unwrap();
    let mech = Mechanism::RsaPkcs1 { digest: Some(DigestAlgorithm::Sha256) };
    let signer = backend.create_sign_context(mech.clone(), kp.private_key(), None).unwrap();
    let sig = signer.sign_oneshot(b"Sign this message").unwrap();
    assert_eq!(sig.len(), 256);
    assert_eq!(sig[0], ((17 + 256) % 256) as u8);
    let mut verifier = backend.create_verify_context(mech.clone(), kp.public_key(), None).unwrap();
    verifier.update(b"Sign this message").unwrap();
    assert!(verifier.finalize(&sig).unwrap());
    let mut verifier = backend.create_verify_context(mech, kp.public_key(), None).unwrap();
    verifier.update(b"Wrong message").unwrap();
    assert!(!verifier.finalize(&sig).unwrap());
}

#[test]
fn encrypt_then_decrypt() {
    let backend = MockBackend::new().unwrap();
    let key = backend.generate_key(KeyAlgorithm::Aes256, None).unwrap();
    let mech = Mechanism::Aes { mode: vtok_p11::types::mechanism::AesMode::Cbc, key_size: 256 };
    let mut enc = backend.create_encrypt_context(mech.clone(), &key, None).unwrap();
    assert!(enc.update(b"Encrypt this message").unwrap().is_empty());
    let ct = enc.finalize().unwrap();
    assert_ne!(ct, b"Encrypt this message".to_vec());
    let mut dec = backend.create_decrypt_context(mech, &key, None).unwrap();
    dec.update(&ct).unwrap();
    assert_eq!(dec.finalize().unwrap(), b"Encrypt this message".to_vec());
}

#[test]
fn digest_streaming_matches_one_shot() {
    let config = create_test_config(false, false);
    let mut a = MockDigestContext::new(DigestAlgorithm::Sha256, &config).unwrap();
    a.update(b"Hello, ").unwrap();
    a.update(b"World!").unwrap();
    let mut b = MockDigestContext::new(DigestAlgorithm::Sha256, &config).unwrap();
    b.update(b"Hello, World!").unwrap();
    let da = a.finalize().unwrap();
    assert_eq!(da, b.finalize().unwrap());
    assert_eq!(da[0], 0xdf);
    let det = MockDigestContext::new(DigestAlgorithm::Sha384, &MockConfig::deterministic()).unwrap();
    assert_eq!(det.finalize().unwrap(), vec![0x43; 48]);
    match MockDigestContext::new(DigestAlgorithm::Md5, &config) {
        Err(BackendError::UnsupportedAlgorithm(m)) => assert_eq!(m, "Digest algorithm Md5 not supported in mock"),
        _ => panic!("expected an error"),
    }
}

#[test]
fn error_injection_scenario() {
    let provider = MockProvider::with_error_injection(vec!["generate_keypair".to_string()]).unwrap();
    match provider.backend().generate_keypair(KeyAlgorithm::Rsa2048, None) {
        Err(BackendError::MockError(m)) => assert_eq!(m, "Injected error for generate_keypair"),
        other => panic!("unexpected {:?}", other.is_ok()),
    }
    assert!(provider.backend().generate_key(KeyAlgorithm::Aes256, None).is_ok());
    let perf = TestScenarios::performance_testing();
    assert_eq!(perf.operation_delay("generate_keypair"), Some(100));
    assert_eq!(perf.operation_delay("unknown"), None);
    assert!(TestScenarios::error_injection().injects_error("sign_oneshot"));
    assert!(!TestScenarios::basic_deterministic().injects_error("sign_oneshot"));
}

#[test]
fn import_export_round_trip() {
    let backend = MockBackend::new().unwrap();
    let key = backend.generate_key(KeyAlgorithm::Aes256, None).unwrap();
    let exported = key.export_key().unwrap();
    let imported = backend.import_key(KeyType::Secret, KeyAlgorithm::Aes256, &exported, None).unwrap();
    assert_eq!(imported.export_key().unwrap(), exported);
    match backend.import_key(KeyType::Secret, KeyAlgorithm::Aes256, &[1, 2, 3], None) {
        Err(BackendError::InvalidKeyData(m)) => assert_eq!(m, "AES-256 key must be 32 bytes"),
        _ => panic!("expected an error"),
    }
    let private = MockKey::import_private(KeyAlgorithm::Rsa2048, &[1, 255], &MockConfig::default()).unwrap();
    let derived = MockKey::derive_public_from_private(&private).unwrap();
    assert_eq!(derived.key_data(), &[2, 0]);
    assert_eq!(derived.key_data(), &private.export_public_key().unwrap()[..]);
    assert!(MockKey::derive_public_from_private(&derived).is_err());
}

#[test]
fn attributes_and_read_only() {
    let mut key = MockKey::import_public(KeyAlgorithm::EcdsaP256, &[7; 64], &MockConfig::default()).unwrap();
    assert!(key.set_attribute("CKA_LABEL", vec![1]).is_ok());
    assert!(key.set_attribute("CKA_LABEL", vec![2]).is_ok());
    assert_eq!(key.get_attribute("CKA_LABEL"), Some(vec![2]));
    assert!(key.has_attribute("CKA_LABEL"));
    assert_eq!(key.attributes().len(), 1);
    match key.set_attribute("CKA_CLASS", vec![0]) {
        Err(BackendError::ReadOnlyAttribute(m)) => assert_eq!(m, "Attribute CKA_CLASS is read-only"),
        _ => panic!("expected an error"),
    }
    assert!(!key.has_attribute("CKA_CLASS"));
}

#[test]
fn base64_encoding() {
    assert_eq!(encode(b"Man"), "TWFu");
    assert_eq!(encode(b"Ma"), "TWE=");
    assert_eq!(encode(b"M"), "TQ==");
    assert_eq!(encode(b""), "");
    let long = encode(&[0u8; 57]);
    assert_eq!(long.len(), 77);
    assert!(long.ends_with('\n'));
}

#[test]
fn factory_data() {
    let factory = MockDataFactory::deterministic();
    let rsa = factory.rsa_test_data(2048);
    assert_eq!(rsa.private_key.len(), 256);
    assert_eq!(rsa.message, b"Hello, RSA World!".to_vec());
    let ec = factory.ecdsa_test_data("P-256");
    assert_eq!(ec.public_key.len(), 64);
    let sym = factory.symmetric_test_data("AES-256");
    assert_eq!(sym.key.len(), 32);
    assert_eq!(sym.ciphertext[0], b'H' ^ sym.key[0]);
    let cert = factory.certificate_test_data("CN=Test");
    assert_eq!(cert.subject, "CN=Test");
    assert_eq!(cert.issuer, "CN=Mock CA");
}

#[test]
fn sign_context_collects_data() {
    let config = MockConfig::default();
    let key = MockKey::new_ecdsa_private(KeyAlgorithm::EcdsaP384, &config).unwrap();
    let mut ctx = MockSignContext::new(Mechanism::Ecdsa { digest: None }, key, &config).unwrap();
    ctx.update(b"abc").unwrap();
    assert_eq!(ctx.max_signature_size(), 96);
    let sig = ctx.finalize().unwrap();
    assert_eq!(sig.len(), 96);
    assert_eq!(sig[0], (3 + 48) as u8);
}

#[test]
fn info_test_provider_creation() {
    let provider = MockProvider::deterministic().unwrap();
    let info = provider.info();
    assert_eq!(info.name, "Mock PKCS#11 Provider");
}

#[test]
fn test_mechanisms_list() {
    let provider = MockProvider::deterministic().unwrap();
    let mechanisms = provider.supported_mechanisms();
    assert!(!mechanisms.is_empty());
}

#[test]
fn test_algorithms_list() {
    let provider = MockProvider::deterministic().unwrap();
    let algorithms = provider.supported_key_algorithms();
    assert!(!algorithms.is_empty());
}

fn hex(bytes: &[u8]) -> String {
    bytes.iter().map(|b| format!("{:02x}", b)).collect()
}

#[test]
fn non_deterministic_digests_are_sha2() {
    let config = create_test_config(false, false);
    let cases = [
        (DigestAlgorithm::Sha256, "ba7816bf8f01cfea414140de5dae2223b00361a396177a9cb410ff61f20015ad"),
        (
            DigestAlgorithm::Sha384,
            "cb00753f45a35e8bb5a03d699ac65007272c32ab0eded1631a8b605a43ff5bed8086072ba1e7cc2358baeca134c825a7",
        ),
        (
            DigestAlgorithm::Sha512,
            "ddaf35a193617abacc417349ae20413112e6fa4e89a97ea20a9eeee64b55d39a2192992a274fc1a836ba3c23a3feebbd454d4423643ce80e2a9ac94fa54ca49f",
        ),
    ];
    for (alg, expected) in cases {
        let mut ctx = MockDigestContext::new(alg, &config).expect("digest context");
        ctx.update(b"abc").expect("update");
        assert_eq!(hex(&ctx.finalize().expect("finalize")), expected);
    }
}

#[test]
fn derived_public_key_equals_exported_public_part() {
    let config = MockConfig::deterministic();
    let private = MockKey::new_rsa_private(KeyAlgorithm::Rsa2048, &config).unwrap();
    let derived = MockKey::derive_public_from_private(&private).unwrap();
    assert_eq!(private.export_public_key().ok(), Some(derived.key_data().to_vec()));
}

#[test]
fn key_usage_bits_are_distinct() {

    let all = CertKeyUsage::all();
    assert_eq!(all.len(), 9);
    for (i, u) in all.iter().enumerate() {
        assert_eq!(u.bit_position() as usize, i);
    }
}
