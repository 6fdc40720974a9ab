use vtok_p11::aws::backend::AwsLcBackend;
use vtok_p11::aws::provider::{AwsLcProvider, ProviderConfig};
use vtok_p11::traits::context::DigestContext;
use vtok_p11::traits::crypto::CryptoBackend;
use vtok_p11::traits::key::Key;
use vtok_p11::types::key::KeyAlgorithm;
use vtok_p11::types::mechanism::{DigestAlgorithm, Mechanism};

#[test]
fn test_provider_initialization() {
    let backend = AwsLcBackend::new().expect("Failed to create backend");
    let provider = AwsLcProvider::new(backend);

    let info = provider.info();
    assert_eq!(info.name, "AWS-LC PKCS#11 Provider");
    assert_eq!(info.version, "1.0.0");
    assert_eq!(info.vendor, "Amazon Web Services");

    assert!(provider.is_thread_safe());
    assert!(provider.max_sessions().is_some());
}

#[test]
fn test_backend_capabilities() {
    let backend = AwsLcBackend::new().expect("Failed to create backend");
    let provider = AwsLcProvider::new(backend);

    let mechanisms = provider.supported_mechanisms();
    assert!(!mechanisms.is_empty(), "Should support at least some mechanisms");

    let algorithms = provider.supported_key_algorithms();
    assert!(!algorithms.is_empty(), "Should support at least some key algorithms");

    let sha256_digest = Mechanism::Digest(DigestAlgorithm::Sha256);
    assert!(provider.supports_mechanism(&sha256_digest), "Should support SHA-256 digest");

    let rsa_pkcs1_sha256 = Mechanism::RsaPkcs1 { digest: Some(DigestAlgorithm::Sha256) };
    assert!(provider.supports_mechanism(&rsa_pkcs1_sha256), "Should support RSA PKCS#1 with SHA-256");
}

#[test]
fn test_provider_configuration() {
    let backend = AwsLcBackend::new().expect("Failed to create backend");
    let config = ProviderConfig {
        enable_logging: true,
        log_level: "debug".to_string(),
        max_sessions: 512,
        session_timeout_secs: Some(1800),
        enable_threading: true,
    };

    let provider = AwsLcProvider::with_config(backend, config);
    let current_config = provider.config();

    assert_eq!(current_config.max_sessions, 1024);
    assert!(current_config.enable_logging);
    assert!(current_config.enable_threading);
}

#[test]
fn test_key_algorithm_support() {
    let backend = AwsLcBackend::new().expect("Failed to create backend");
    let provider = AwsLcProvider::new(backend);

    assert_eq!(provider.min_key_size(KeyAlgorithm::Rsa2048), Some(2048));
    assert_eq!(provider.max_key_size(KeyAlgorithm::Rsa2048), Some(2048));

    assert_eq!(provider.min_key_size(KeyAlgorithm::Rsa4096), Some(4096));
    assert_eq!(provider.max_key_size(KeyAlgorithm::Rsa4096), Some(4096));

    assert_eq!(provider.min_key_size(KeyAlgorithm::EcdsaP256), Some(256));
    assert_eq!(provider.max_key_size(KeyAlgorithm::EcdsaP256), Some(256));

    assert_eq!(provider.min_key_size(KeyAlgorithm::Aes256), Some(256));
    assert_eq!(provider.max_key_size(KeyAlgorithm::Aes256), Some(256));
}

#[test]
fn test_aws_lc_backend_functionality() {
    let backend = AwsLcBackend::new().expect("Failed to create backend");

    let info = backend.info();
    assert_eq!(info.name(), "AWS-LC Backend");
    assert_eq!(info.version(), "1.0.0");

    let mechanisms = backend.supported_mechanisms();
    assert!(!mechanisms.is_empty());

    let algorithms = backend.supported_key_algorithms();
    assert!(!algorithms.is_empty());

    assert!(backend.supports_mechanism(&Mechanism::Digest(DigestAlgorithm::Sha256)));
    assert!(backend.supports_mechanism(&Mechanism::RsaPkcs1 { digest: Some(DigestAlgorithm::Sha256) }));
    assert!(backend.supports_mechanism(&Mechanism::Ecdsa { digest: Some(DigestAlgorithm::Sha256) }));
}

#[test]
fn test_digest_context() {
    let backend = AwsLcBackend::new().expect("Failed to create backend");

    let mut ctx = backend
        .create_digest_context(DigestAlgorithm::Sha256, None)
        .expect("Failed to create digest context");

    assert_eq!(ctx.algorithm(), DigestAlgorithm::Sha256);
    assert!(ctx.supports_incremental());

    let data = b"Hello, World!";
    ctx.update(data).expect("Failed to update digest");

    let digest = ctx.finalize().expect("Failed to finalize digest");
    assert_eq!(digest.len(), 32);
    assert!(digest.iter().any(|&b| b != 0));
}

#[test]
fn integration_tests_test_key_generation() {
    let backend = AwsLcBackend::new().expect("Failed to create backend");

    let aes_key = backend.generate_key(KeyAlgorithm::Aes256, None).expect("Failed to generate AES key");

    assert_eq!(aes_key.algorithm(), KeyAlgorithm::Aes256);
    assert_eq!(aes_key.key_size(), 256);
    assert!(aes_key.is_sensitive());
    assert!(!aes_key.is_extractable());
}

#[test]
fn integration_tests_test_provider_capabilities() {
    let backend = AwsLcBackend::new().expect("Failed to create backend");
    let provider = AwsLcProvider::new(backend);

    let caps = provider.capabilities();
    assert!(!caps.hardware_keys);
    assert!(!caps.secure_storage);
    assert!(caps.hardware_rng);
    assert!(caps.side_channel_resistant);
}

#[test]
fn test_error_handling() {
    let backend = AwsLcBackend::new().expect("Failed to create backend");

    let unsupported_mechanism = Mechanism::RsaPkcs1 { digest: Some(DigestAlgorithm::Sha1) };
    assert!(!backend.supports_mechanism(&unsupported_mechanism));
}

#[test]
fn sha256_digest_of_known_input() {
    let backend = AwsLcBackend::new().expect("Failed to create backend");
    let mut ctx = backend.create_digest_context(DigestAlgorithm::Sha256, None).expect("context");
    ctx.update(b"abc").expect("update");
    let digest = ctx.finalize().expect("finalize");
    let expected: [u8; 32] = [
        0xba, 0x78, 0x16, 0xbf, 0x8f, 0x01, 0xcf, 0xea, 0x41, 0x41, 0x40, 0xde, 0x5d, 0xae, 0x22, 0x23, 0xb0, 0x03,
        0x61, 0xa3, 0x96, 0x17, 0x7a, 0x9c, 0xb4, 0x10, 0xff, 0x61, 0xf2, 0x00, 0x15, 0xad,
    ];
    assert_eq!(digest, expected.to_vec());
}

#[test]
fn rsa_and_ec_key_generation() {
    let backend = AwsLcBackend::new().expect("Failed to create backend");
    let rsa = backend.generate_keypair(KeyAlgorithm::Rsa2048, None).expect("rsa");
    assert_eq!(vtok_p11::traits::key::KeyPair::algorithm(&rsa), KeyAlgorithm::Rsa2048);
    let modulus = vtok_p11::traits::key::Key::export_public_key(vtok_p11::traits::key::KeyPair::public_key(&rsa))
        .expect("public modulus");
    assert_eq!(modulus.len(), 256);
    let ec = backend.generate_keypair(KeyAlgorithm::EcdsaP256, None).expect("ec");
    assert_eq!(vtok_p11::traits::key::KeyPair::algorithm(&ec), KeyAlgorithm::EcdsaP256);
    assert!(backend.generate_keypair(KeyAlgorithm::Aes128, None).is_err());
}

#[test]
fn random_bytes_have_requested_length() {
    let backend = AwsLcBackend::new().expect("Failed to create backend");
    let r = backend.generate_random(48).expect("random");
    assert_eq!(r.len(), 48);
}

#[test]
fn backend_key_size_limits() {
    let backend = AwsLcBackend::new().expect("Failed to create backend");
    assert_eq!(CryptoBackend::max_key_size(&backend, KeyAlgorithm::Rsa3072), Some(3072));
    assert_eq!(CryptoBackend::max_key_size(&backend, KeyAlgorithm::EcdsaP256), None);
    assert_eq!(CryptoBackend::min_key_size(&backend, KeyAlgorithm::EcdsaP521), 521);
    assert!(CryptoBackend::initialize(&backend).is_ok());
    assert!(CryptoBackend::finalize(&backend).is_ok());
}

#[test]
fn aws_digest_streaming_matches_one_shot() {
    let backend = AwsLcBackend::new().expect("Failed to create backend");
    let mut split = backend.create_digest_context(DigestAlgorithm::Sha384, None).expect("context");
    split.update(b"Hello, ").expect("update");
    split.update(b"World!").expect("update");
    let mut whole = backend.create_digest_context(DigestAlgorithm::Sha384, None).expect("context");
    whole.update(b"Hello, World!").expect("update");
    assert_eq!(split.finalize().expect("finalize"), whole.finalize().expect("finalize"));
}
