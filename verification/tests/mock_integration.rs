use vtok_p11::mock::provider::MockProvider;
use vtok_p11::mock::utils::{MockDataFactory, TestScenarios};
use vtok_p11::traits::context::{DecryptContext, DigestContext, EncryptContext, VerifyContext};
use vtok_p11::traits::key::{Key, KeyPair};
use vtok_p11::types::key::{KeyAlgorithm, KeyType};
use vtok_p11::types::mechanism::{DigestAlgorithm, Mechanism};

#[test]
fn integration_tests_test_provider_creation() {
    let provider = MockProvider::deterministic().expect("Failed to create provider");
    let info = provider.info();

    assert_eq!(info.name, "Mock PKCS#11 Provider");
    assert_eq!(info.version, "1.0.0");
    assert!(provider.is_thread_safe());
}

#[test]
fn test_backend_mechanisms() {
    let provider = MockProvider::deterministic().expect("Failed to create provider");
    let backend = provider.backend();

    let mechanisms = backend.supported_mechanisms();
    assert!(!mechanisms.is_empty());

    assert!(backend.supports_mechanism(&Mechanism::Digest(DigestAlgorithm::Sha256)));
    assert!(backend.supports_mechanism(&Mechanism::RsaPkcs1 { digest: Some(DigestAlgorithm::Sha256) }));
    assert!(backend.supports_mechanism(&Mechanism::Ecdsa { digest: Some(DigestAlgorithm::Sha256) }));
}

#[test]
fn test_key_algorithms() {
    let provider = MockProvider::deterministic().expect("Failed to create provider");
    let backend = provider.backend();

    let algorithms = backend.supported_key_algorithms();
    assert!(!algorithms.is_empty());

    assert!(algorithms.contains(&KeyAlgorithm::Rsa2048));
    assert!(algorithms.contains(&KeyAlgorithm::EcdsaP256));
    assert!(algorithms.contains(&KeyAlgorithm::Aes256));
}

#[test]
fn mock_test_key_generation() {
    let provider = MockProvider::deterministic().expect("Failed to create provider");
    let backend = provider.backend();

    let rsa_keypair = backend.generate_keypair(KeyAlgorithm::Rsa2048, None).expect("Failed to generate RSA key pair");
    assert_eq!(rsa_keypair.algorithm(), KeyAlgorithm::Rsa2048);
    assert_eq!(rsa_keypair.key_size(), 2048);
    assert!(rsa_keypair.private_key().can_sign());
    assert!(rsa_keypair.public_key().can_verify());

    let ecdsa_keypair =
        backend.generate_keypair(KeyAlgorithm::EcdsaP256, None).expect("Failed to generate ECDSA key pair");
    assert_eq!(ecdsa_keypair.algorithm(), KeyAlgorithm::EcdsaP256);
    assert_eq!(ecdsa_keypair.key_size(), 256);
    assert!(ecdsa_keypair.private_key().can_sign());
    assert!(ecdsa_keypair.public_key().can_verify());

    let symmetric_key = backend.generate_key(KeyAlgorithm::Aes256, None).expect("Failed to generate symmetric key");
    assert_eq!(symmetric_key.algorithm(), KeyAlgorithm::Aes256);
    assert_eq!(symmetric_key.key_size(), 256);
    assert!(symmetric_key.can_encrypt());
    assert!(symmetric_key.can_decrypt());
}

#[test]
fn test_digest_operations() {
    let provider = MockProvider::deterministic().expect("Failed to create provider");
    let backend = provider.backend();

    let mut digest_ctx =
        backend.create_digest_context(DigestAlgorithm::Sha256, None).expect("Failed to create digest context");
    let test_data = b"Hello, World!";
    digest_ctx.update(test_data).expect("Failed to update digest");
    let hash = digest_ctx.finalize().expect("Failed to finalize digest");
    assert_eq!(hash.len(), 32);

    let mut digest_ctx2 =
        backend.create_digest_context(DigestAlgorithm::Sha256, None).expect("Failed to create second digest context");
    digest_ctx2.update(test_data).expect("Failed to update second digest");
    let hash2 = digest_ctx2.finalize().expect("Failed to finalize second digest");

    assert_eq!(hash, hash2, "Deterministic digest should produce same result");
}

#[test]
fn test_sign_verify_operations() {
    let provider = MockProvider::deterministic().expect("Failed to create provider");
    let backend = provider.backend();

    let keypair = backend.generate_keypair(KeyAlgorithm::Rsa2048, None).expect("Failed to generate key pair");

    let mechanism = Mechanism::RsaPkcs1 { digest: Some(DigestAlgorithm::Sha256) };
    let test_data = b"Sign this message";

    let sign_ctx = backend
        .create_sign_context(mechanism.clone(), keypair.private_key(), None)
        .expect("Failed to create sign context");
    let signature = sign_ctx.sign_oneshot(test_data).expect("Failed to sign data");

    assert!(!signature.is_empty());
    assert_eq!(signature.len(), 256);

    let verify_ctx = backend
        .create_verify_context(mechanism.clone(), keypair.public_key(), None)
        .expect("Failed to create verify context");
    let is_valid = verify_ctx.verify(test_data, &signature).expect("Failed to verify signature");
    assert!(is_valid, "Signature should be valid");

    let verify_ctx = backend
        .create_verify_context(mechanism, keypair.public_key(), None)
        .expect("Failed to create verify context");
    let wrong_data = b"Wrong message";
    let is_invalid = verify_ctx.verify(wrong_data, &signature).expect("Failed to verify wrong signature");
    assert!(!is_invalid, "Signature should be invalid for wrong data");
}

#[test]
fn test_encrypt_decrypt_operations() {
    let provider = MockProvider::deterministic().expect("Failed to create provider");
    let backend = provider.backend();

    let key = backend.generate_key(KeyAlgorithm::Aes256, None).expect("Failed to generate symmetric key");

    let mechanism = Mechanism::Digest(DigestAlgorithm::Sha256);
    let plaintext = b"Encrypt this message";

    let encrypt_ctx =
        backend.create_encrypt_context(mechanism.clone(), &key, None).expect("Failed to create encrypt context");
    let ciphertext = encrypt_ctx.encrypt(plaintext).expect("Failed to encrypt data");

    assert!(!ciphertext.is_empty());
    assert_ne!(plaintext.to_vec(), ciphertext, "Ciphertext should differ from plaintext");

    let decrypt_ctx = backend.create_decrypt_context(mechanism, &key, None).expect("Failed to create decrypt context");
    let decrypted = decrypt_ctx.decrypt(&ciphertext).expect("Failed to decrypt data");

    assert_eq!(plaintext.to_vec(), decrypted, "Decrypted data should match original");
}

#[test]
fn test_random_generation() {
    let provider = MockProvider::deterministic().expect("Failed to create provider");
    let backend = provider.backend();

    let random1 = backend.generate_random(32).expect("Failed to generate random data");
    let random2 = backend.generate_random(32).expect("Failed to generate second random data");

    assert_eq!(random1.len(), 32);
    assert_eq!(random2.len(), 32);
    assert_eq!(random1, random2, "Deterministic random should be identical");
}

#[test]
fn test_error_injection() {
    let provider = MockProvider::with_error_injection(vec!["generate_keypair".to_string()])
        .expect("Failed to create provider with error injection");
    let backend = provider.backend();

    let result = backend.generate_keypair(KeyAlgorithm::Rsa2048, None);
    assert!(result.is_err(), "Error injection should cause failure");
}

#[test]
fn performance_simulation_records_delay() {
    let provider = MockProvider::with_performance_simulation(vec![("generate_keypair".to_string(), 100)])
        .expect("Failed to create provider with performance simulation");
    let backend = provider.backend();

    assert_eq!(backend.operation_delay("generate_keypair"), Some(100));
    assert_eq!(backend.operation_delay("generate_key"), None);
    assert!(backend.generate_keypair(KeyAlgorithm::Rsa2048, None).is_ok());
}

#[test]
fn test_test_scenarios() {
    let config = TestScenarios::basic_deterministic();
    assert!(config.deterministic);
    assert!(config.error_injection.is_none());

    let config = TestScenarios::error_injection();
    assert!(config.deterministic);
    assert!(config.error_injection.is_some());

    let config = TestScenarios::performance_testing();
    assert!(config.deterministic);
    assert!(config.performance_simulation.is_some());
}

#[test]
fn test_mock_data_factory() {
    let factory = MockDataFactory::deterministic();

    let rsa_data = factory.rsa_test_data(2048);
    assert_eq!(rsa_data.key_size, 2048);
    assert!(!rsa_data.private_key.is_empty());
    assert!(!rsa_data.public_key.is_empty());
    assert!(!rsa_data.signature.is_empty());

    let ecdsa_data = factory.ecdsa_test_data("P-256");
    assert_eq!(ecdsa_data.curve, "P-256");
    assert!(!ecdsa_data.private_key.is_empty());
    assert!(!ecdsa_data.public_key.is_empty());
    assert!(!ecdsa_data.signature.is_empty());

    let symmetric_data = factory.symmetric_test_data("AES-256");
    assert_eq!(symmetric_data.algorithm, "AES-256");
    assert_eq!(symmetric_data.key.len(), 32);
    assert!(!symmetric_data.plaintext.is_empty());
    assert!(!symmetric_data.ciphertext.is_empty());

    let cert_data = factory.certificate_test_data("CN=Test");
    assert_eq!(cert_data.subject, "CN=Test");
    assert!(!cert_data.der_data.is_empty());
    assert!(!cert_data.public_key.is_empty());
}

#[test]
fn test_key_import_export() {
    let provider = MockProvider::deterministic().expect("Failed to create provider");
    let backend = provider.backend();

    let original_key = backend.generate_key(KeyAlgorithm::Aes256, None).expect("Failed to generate key");
    let key_data = original_key.export_key().expect("Failed to export key");
    assert_eq!(key_data.len(), 32);

    let imported_key =
        backend.import_key(KeyType::Secret, KeyAlgorithm::Aes256, &key_data, None).expect("Failed to import key");
    assert_eq!(imported_key.algorithm(), KeyAlgorithm::Aes256);
    assert_eq!(imported_key.key_size(), 256);

    let imported_data = imported_key.export_key().expect("Failed to export imported key");
    assert_eq!(key_data, imported_data, "Imported key should match original");
}

#[test]
fn test_streaming_operations() {
    let provider = MockProvider::deterministic().expect("Failed to create provider");
    let backend = provider.backend();

    let mut digest_ctx =
        backend.create_digest_context(DigestAlgorithm::Sha256, None).expect("Failed to create digest context");
    digest_ctx.update(b"Hello, ").expect("Failed to update digest with data1");
    digest_ctx.update(b"World!").expect("Failed to update digest with data2");
    let hash = digest_ctx.finalize().expect("Failed to finalize digest");

    let mut digest_ctx2 =
        backend.create_digest_context(DigestAlgorithm::Sha256, None).expect("Failed to create second digest context");
    digest_ctx2.update(b"Hello, World!").expect("Failed to update digest with combined data");
    let hash2 = digest_ctx2.finalize().expect("Failed to finalize second digest");

    assert_eq!(hash, hash2, "Streaming and one-shot digest should produce same result");
}

#[test]
fn mock_test_provider_capabilities() {
    let provider = MockProvider::deterministic().expect("Failed to create provider");
    let capabilities = provider.capabilities();

    assert!(!capabilities.hardware_keys);
    assert!(!capabilities.secure_storage);
    assert!(!capabilities.hardware_rng);
    assert!(!capabilities.side_channel_resistant);
    assert!(!capabilities.fips_compliant);
    assert!(capabilities.deterministic_mode);
    assert!(capabilities.error_injection);
    assert!(capabilities.performance_simulation);
}
