use vtok_p11::mock::backend::MockBackend;
use vtok_p11::mock::config::MockConfig;
use vtok_p11::traits::context::{DigestContext, VerifyContext};
use vtok_p11::traits::key::{Key, KeyPair};
use vtok_p11::types::key::KeyAlgorithm;
use vtok_p11::types::mechanism::{DigestAlgorithm, Mechanism};

#[derive(Debug, Clone)]
struct TestConfig {
    test_rsa_2048: bool,
    test_ecdsa_p256: bool,
    test_signing: bool,
    test_verification: bool,
    test_digest: bool,
    test_key_generation: bool,
}

fn create_minimal_test_config() -> TestConfig {
    TestConfig {
        test_rsa_2048: false,
        test_ecdsa_p256: true,
        test_signing: true,
        test_verification: false,
        test_digest: true,
        test_key_generation: true,
    }
}

fn mock_backend() -> MockBackend {
    MockBackend::with_config(MockConfig::deterministic()).expect("backend")
}

#[test]
fn test_cross_backend_compatibility() {
    println!("Testing cross-backend compatibility...");
    println!("  ✅ Cross-backend compatibility test placeholder");
}

#[test]
fn integration_tests_test_concurrent_operations() {
    println!("Testing concurrent operations...");
    println!("  ✅ Concurrent operations test placeholder");
}

#[test]
fn test_performance_benchmarks() {
    println!("Running performance benchmarks...");
    println!("  ✅ Performance benchmark test placeholder");
}

#[test]
fn test_pkcs11_compliance() {
    println!("Testing PKCS#11 compliance...");
    println!("  ✅ PKCS#11 compliance test placeholder");
}

#[test]
fn test_integration_framework() {
    let config = create_minimal_test_config();
    assert!(config.test_ecdsa_p256);
    assert!(config.test_signing);
    assert!(config.test_digest);
    assert!(config.test_key_generation);
    assert!(!config.test_rsa_2048);
    assert!(!config.test_verification);
}

#[test]
fn mock_suite_key_generation() {
    let backend = mock_backend();
    for algorithm in backend.supported_key_algorithms() {
        match algorithm {
            KeyAlgorithm::Rsa2048 | KeyAlgorithm::Rsa3072 | KeyAlgorithm::Rsa4096 | KeyAlgorithm::EcdsaP256
            | KeyAlgorithm::EcdsaP384 => {
                let keypair = backend.generate_keypair(algorithm, None).expect("keypair");
                assert_eq!(keypair.algorithm(), algorithm);
                assert_eq!(keypair.key_size(), algorithm.key_size_bits());
            },
            _ => {
                if algorithm.is_symmetric() {
                    let key = backend.generate_key(algorithm, None).expect("key");
                    assert_eq!(key.algorithm(), algorithm);
                    assert_eq!(key.key_size(), algorithm.key_size_bits());
                }
            },
        }
    }
}

#[test]
fn mock_suite_signing_and_verification() {
    let backend = mock_backend();
    let test_data = b"Verification test data";
    let keypair = backend.generate_keypair(KeyAlgorithm::Rsa2048, None).expect("keypair");
    let mechanism = Mechanism::RsaPkcs1 { digest: Some(DigestAlgorithm::Sha256) };
    assert!(backend.supports_mechanism(&mechanism));

    let sign_ctx = backend.create_sign_context(mechanism.clone(), keypair.private_key(), None).expect("sign");
    let signature = sign_ctx.sign_oneshot(test_data).expect("signature");
    assert_eq!(signature.len(), 256);

    let verify_ctx = backend.create_verify_context(mechanism.clone(), keypair.public_key(), None).expect("verify");
    assert!(verify_ctx.verify(test_data, &signature).expect("verify"));

    let verify_ctx = backend.create_verify_context(mechanism, keypair.public_key(), None).expect("verify");
    let mut invalid = signature.clone();
    invalid[0] ^= 0xFF;
    assert!(!verify_ctx.verify(test_data, &invalid).expect("verify"));
}

#[test]
fn mock_suite_digests() {
    let backend = mock_backend();
    let test_data = b"Digest test data";
    for algorithm in [DigestAlgorithm::Sha256, DigestAlgorithm::Sha384, DigestAlgorithm::Sha512] {
        assert!(backend.supports_mechanism(&Mechanism::Digest(algorithm)));
        let ctx = backend.create_digest_context(algorithm, None).expect("digest");
        let hash = ctx.digest(test_data).expect("digest");
        assert_eq!(hash.len(), algorithm.output_size());
        let mut ctx2 = backend.create_digest_context(algorithm, None).expect("digest");
        ctx2.update(&test_data[..5]).expect("update");
        ctx2.update(&test_data[5..]).expect("update");
        assert_eq!(ctx2.finalize().expect("finalize"), hash);
    }
}

#[test]
fn mock_suite_capabilities_and_errors() {
    let backend = mock_backend();
    let info = backend.info();
    assert!(!info.name().is_empty());
    assert!(!info.version().is_empty());
    let mechanisms = backend.supported_mechanisms();
    assert!(!mechanisms.is_empty());
    for mechanism in &mechanisms {
        assert!(backend.supports_mechanism(mechanism));
    }
    assert!(backend.generate_keypair(KeyAlgorithm::Rsa8192, None).is_err());
    assert!(!backend.supports_mechanism(&Mechanism::EdDsa));
}
