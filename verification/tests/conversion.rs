use vtok_p11::utils::conversion::{
    backend_error_to_pkcs11, bytes_to_hex, constant_time_eq, hex_to_bytes, pkcs7_pad, pkcs7_unpad,
};
use vtok_p11::types::error::BackendError;
use vtok_p11::types::key::{KeyAlgorithm, KeyType};
use vtok_p11::types::mechanism::{AesMode, DigestAlgorithm, Mechanism};
use vtok_p11::utils::conversion::{
    backend_key_type_to_pkcs11, backend_mechanism_to_pkcs11, pkcs11_key_size_to_algorithm, pkcs11_key_type_to_backend,
    pkcs11_mechanism_to_backend,
};

#[test]
fn test_hex_conversion() {
    let bytes = vec![0x01, 0x23, 0x45, 0x67, 0x89, 0xab, 0xcd, 0xef];
    let hex = bytes_to_hex(&bytes);
    assert_eq!(hex, "0123456789abcdef");

    let converted_back = hex_to_bytes(&hex).unwrap();
    assert_eq!(bytes, converted_back);
}

#[test]
fn test_constant_time_eq() {
    let a = vec![1, 2, 3, 4];
    let b = vec![1, 2, 3, 4];
    let c = vec![1, 2, 3, 5];

    assert!(constant_time_eq(&a, &b));
    assert!(!constant_time_eq(&a, &c));
    assert!(!constant_time_eq(&a, &[1, 2, 3]));
}

#[test]
fn test_pkcs7_padding() {
    let data = vec![1, 2, 3, 4, 5];
    let padded = pkcs7_pad(&data, 8);
    assert_eq!(padded, vec![1, 2, 3, 4, 5, 3, 3, 3]);

    let unpadded = pkcs7_unpad(&padded).unwrap();
    assert_eq!(unpadded, data);
}

#[test]
fn hex_errors_are_reported() {
    match hex_to_bytes("abc") {
        Err(BackendError::InvalidParameters(m)) => assert_eq!(m, "Hex string must have even length"),
        other => panic!("unexpected {:?}", other),
    }
    match hex_to_bytes("zz") {
        Err(BackendError::InvalidParameters(m)) => assert_eq!(m, "Invalid hex character"),
        other => panic!("unexpected {:?}", other),
    }
    match hex_to_bytes("+f") {
        Err(BackendError::InvalidParameters(m)) => assert_eq!(m, "Invalid hex character"),
        other => panic!("unexpected {:?}", other),
    }
    assert_eq!(hex_to_bytes("FF00").unwrap(), vec![0xff, 0x00]);
}

#[test]
fn hex_round_trip_of_all_bytes() {
    let bytes: Vec<u8> = (0u8..=255).collect();
    let hex = bytes_to_hex(&bytes);
    assert_eq!(hex.len(), 512);
    assert_eq!(hex_to_bytes(&hex).unwrap(), bytes);
}

#[test]
fn pkcs7_full_block_and_errors() {
    let data = vec![9u8; 8];
    let padded = pkcs7_pad(&data, 8);
    assert_eq!(padded.len(), 16);
    assert_eq!(&padded[8..], &[8u8; 8]);
    assert_eq!(pkcs7_unpad(&padded).unwrap(), data);
    match pkcs7_unpad(&[]) {
        Err(BackendError::InvalidDataLength(m)) => assert_eq!(m, "Empty data"),
        other => panic!("unexpected {:?}", other),
    }
    match pkcs7_unpad(&[1, 2, 0]) {
        Err(BackendError::InvalidDataLength(m)) => assert_eq!(m, "Invalid padding"),
        other => panic!("unexpected {:?}", other),
    }
    match pkcs7_unpad(&[1, 3, 2]) {
        Err(BackendError::InvalidDataLength(m)) => assert_eq!(m, "Invalid padding"),
        other => panic!("unexpected {:?}", other),
    }
}

#[test]
fn error_codes() {
    assert_eq!(backend_error_to_pkcs11(&BackendError::Timeout), 0x05);
    assert_eq!(backend_error_to_pkcs11(&BackendError::OutOfMemory), 0x02);
    assert_eq!(backend_error_to_pkcs11(&BackendError::ContextFinalized), 0x91);
    assert_eq!(backend_error_to_pkcs11(&BackendError::NotInitialized), 0x190);
    assert_eq!(backend_error_to_pkcs11(&BackendError::BufferTooSmall { required: 32, provided: 16 }), 0x150);
    assert_eq!(backend_error_to_pkcs11(&BackendError::KeyGeneration(String::new())), 0x68);
    assert_eq!(backend_error_to_pkcs11(&BackendError::InvalidKeyData(String::new())), 0x62);
    assert_eq!(backend_error_to_pkcs11(&BackendError::InvalidCertificate(String::new())), 0x13);
    assert_eq!(backend_error_to_pkcs11(&BackendError::ReadOnlyAttribute(String::new())), 0x10);
    assert_eq!(backend_error_to_pkcs11(&BackendError::InvalidDataLength(String::new())), 0x21);
}

#[test]
fn standard_mechanism_codes() {
    assert_eq!(
        pkcs11_mechanism_to_backend(0x40, None).unwrap(),
        Mechanism::RsaPkcs1 { digest: Some(DigestAlgorithm::Sha256) }
    );
    assert_eq!(
        pkcs11_mechanism_to_backend(0x46, None).unwrap(),
        Mechanism::RsaPkcs1 { digest: Some(DigestAlgorithm::Sha224) }
    );
    assert_eq!(
        pkcs11_mechanism_to_backend(0x1082, None).unwrap(),
        Mechanism::Aes { mode: AesMode::Cbc, key_size: 128 }
    );
    assert_eq!(
        pkcs11_mechanism_to_backend(0x1086, None).unwrap(),
        Mechanism::Aes { mode: AesMode::Ctr, key_size: 128 }
    );
    assert_eq!(backend_mechanism_to_pkcs11(&Mechanism::Aes { mode: AesMode::Ecb, key_size: 256 }), 0x1081);
    assert_eq!(pkcs11_key_type_to_backend(0x1F).unwrap(), KeyType::Secret);
    assert!(pkcs11_key_type_to_backend(0x20).is_err());
}

#[test]
fn pkcs7_round_trip_for_several_block_sizes() {
    for block in [1usize, 8, 16, 255] {
        for len in 0..40usize {
            let data: Vec<u8> = (0..len).map(|i| (i * 7) as u8).collect();
            let padded = pkcs7_pad(&data, block);
            assert_eq!(padded.len() % block, 0);
            assert_eq!(pkcs7_unpad(&padded).ok(), Some(data));
        }
    }
}

#[test]
fn mechanism_codes_decode_and_encode_back() {
    for code in [0x220u32, 0x250, 0x1, 0x40, 0x41, 0x42, 0x46, 0xD, 0x9, 0x3, 0x1044, 0x1081, 0x1082, 0x1086, 0x1087, 0x251] {
        let m = pkcs11_mechanism_to_backend(code, None).expect("known code");
        assert_eq!(backend_mechanism_to_pkcs11(&m), code);
    }
    assert!(pkcs11_mechanism_to_backend(0x7777, None).is_err());
}

#[test]
fn key_algorithms_round_trip_through_codes() {
    for (t, a) in [
        (KeyType::Private, KeyAlgorithm::Rsa2048),
        (KeyType::Public, KeyAlgorithm::Rsa4096),
        (KeyType::Private, KeyAlgorithm::EcdsaP384),
        (KeyType::Secret, KeyAlgorithm::Aes192),
        (KeyType::Secret, KeyAlgorithm::ChaCha20),
    ] {
        let code = backend_key_type_to_pkcs11(t, a);
        assert_eq!(pkcs11_key_size_to_algorithm(code, a.key_size_bits()).ok(), Some(a));
    }
}

#[test]
fn error_messages() {

    assert_eq!(BackendError::UnsupportedAlgorithm("X".to_string()).message(), "Unsupported algorithm: X");
    assert_eq!(BackendError::KeySensitive.message(), "Key is sensitive");
    assert_eq!(
        BackendError::BufferTooSmall { required: 32, provided: 16 }.message(),
        "Buffer too small: required 32, provided 16"
    );
    let e = vtok_p11::mock::provider::ProviderError::BackendError(BackendError::Timeout);
    assert_eq!(e.message(), "Backend error: Operation timed out");
    let e = vtok_p11::aws::provider::ProviderError::ConfigurationError("bad".to_string());
    assert_eq!(e.message(), "Configuration error: bad");
    assert_eq!(vtok_p11::types::mechanism::SignaturePadding::Pss { salt_len: 32 }.display_string(), "PSS(salt=32)");
}

