//! The error type of backend operations.

use vstd::prelude::*;
use crate::text::{decimal, usize_to_decimal};

verus! {

/// Errors of backend operations.
#[derive(Debug, Clone)]
pub enum BackendError {
    /// General backend error.
    General(String),
    UnsupportedAlgorithm(String),
    UnsupportedMechanism(String),
    UnsupportedOperation(String),
    KeyGeneration(String),
    KeyDerivation(String),
    /// Invalid key data.
    InvalidKeyData(String),
    /// Invalid key for the operation.
    InvalidKey(String),
    /// The key is not extractable.
    KeyNotExtractable,
    /// The key is sensitive and cannot be revealed.
    KeySensitive,
    InvalidCertificate(String),
    DigestOperation(String),
    DigestUpdate(String),
    DigestFinalize(String),
    SignOperation(String),
    VerifyOperation(String),
    EncryptOperation(String),
    DecryptOperation(String),
    RandomGeneration(String),
    /// The context has already been finalized.
    ContextFinalized,
    /// An operation is already active.
    OperationActive,
    InvalidState(String),
    InvalidParameters(String),
    /// A buffer is too small.
    BufferTooSmall { required: usize, provided: usize },
    InvalidDataLength(String),
    ReadOnlyAttribute(String),
    InitializationFailed(String),
    /// The backend is not initialized.
    NotInitialized,
    HardwareError(String),
    IoError(String),
    /// The operation timed out.
    Timeout,
    /// Memory allocation failed.
    OutOfMemory,
    /// Internal error.
    Internal(String),
    /// An error injected by the mock backend's configuration.
    MockError(String),
}

/// Result type of backend operations.
pub type BackendResult<T> = Result<T, BackendError>;

impl BackendError {
    pub fn general(msg: &str) -> (r: Self)
        ensures
            r matches BackendError::General(s) && s@ == msg@,
    {
        BackendError::General(String::from_str(msg))
    }

    pub fn unsupported_algorithm(alg: &str) -> (r: Self)
        ensures
            r matches BackendError::UnsupportedAlgorithm(s) && s@ == alg@,
    {
        BackendError::UnsupportedAlgorithm(String::from_str(alg))
    }

    pub fn unsupported_mechanism(mech: &str) -> (r: Self)
        ensures
            r matches BackendError::UnsupportedMechanism(s) && s@ == mech@,
    {
        BackendError::UnsupportedMechanism(String::from_str(mech))
    }

    pub fn key_generation(msg: &str) -> (r: Self)
        ensures
            r matches BackendError::KeyGeneration(s) && s@ == msg@,
    {
        BackendError::KeyGeneration(String::from_str(msg))
    }

    pub fn invalid_key(msg: &str) -> (r: Self)
        ensures
            r matches BackendError::InvalidKey(s) && s@ == msg@,
    {
        BackendError::InvalidKey(String::from_str(msg))
    }

    pub fn digest_operation(msg: &str) -> (r: Self)
        ensures
            r matches BackendError::DigestOperation(s) && s@ == msg@,
    {
        BackendError::DigestOperation(String::from_str(msg))
    }

    pub fn sign_operation(msg: &str) -> (r: Self)
        ensures
            r matches BackendError::SignOperation(s) && s@ == msg@,
    {
        BackendError::SignOperation(String::from_str(msg))
    }

    pub fn verify_operation(msg: &str) -> (r: Self)
        ensures
            r matches BackendError::VerifyOperation(s) && s@ == msg@,
    {
        BackendError::VerifyOperation(String::from_str(msg))
    }

    pub fn encrypt_operation(msg: &str) -> (r: Self)
        ensures
            r matches BackendError::EncryptOperation(s) && s@ == msg@,
    {
        BackendError::EncryptOperation(String::from_str(msg))
    }

    pub fn decrypt_operation(msg: &str) -> (r: Self)
        ensures
            r matches BackendError::DecryptOperation(s) && s@ == msg@,
    {
        BackendError::DecryptOperation(String::from_str(msg))
    }

    pub fn internal(msg: &str) -> (r: Self)
        ensures
            r matches BackendError::Internal(s) && s@ == msg@,
    {
        BackendError::Internal(String::from_str(msg))
    }
}

/// The message of each error.
pub open spec fn error_message(e: BackendError) -> Seq<char> {
    match e {
        BackendError::General(m) => "Backend error: "@ + m@,
        BackendError::UnsupportedAlgorithm(m) => "Unsupported algorithm: "@ + m@,
        BackendError::UnsupportedMechanism(m) => "Unsupported mechanism: "@ + m@,
        BackendError::UnsupportedOperation(m) => "Unsupported operation: "@ + m@,
        BackendError::KeyGeneration(m) => "Key generation failed: "@ + m@,
        BackendError::KeyDerivation(m) => "Key derivation failed: "@ + m@,
        BackendError::InvalidKeyData(m) => "Invalid key data: "@ + m@,
        BackendError::InvalidKey(m) => "Invalid key type: "@ + m@,
        BackendError::InvalidCertificate(m) => "Invalid certificate: "@ + m@,
        BackendError::DigestOperation(m) => "Digest operation failed: "@ + m@,
        BackendError::DigestUpdate(m) => "Digest update failed: "@ + m@,
        BackendError::DigestFinalize(m) => "Digest finalization failed: "@ + m@,
        BackendError::SignOperation(m) => "Signing failed: "@ + m@,
        BackendError::VerifyOperation(m) => "Verification failed: "@ + m@,
        BackendError::EncryptOperation(m) => "Encryption failed: "@ + m@,
        BackendError::DecryptOperation(m) => "Decryption failed: "@ + m@,
        BackendError::RandomGeneration(m) => "Random generation failed: "@ + m@,
        BackendError::InvalidState(m) => "Invalid operation state: "@ + m@,
        BackendError::InvalidParameters(m) => "Invalid parameters: "@ + m@,
        BackendError::InvalidDataLength(m) => "Invalid data length: "@ + m@,
        BackendError::ReadOnlyAttribute(m) => "Read-only attribute: "@ + m@,
        BackendError::InitializationFailed(m) => "Backend initialization failed: "@ + m@,
        BackendError::HardwareError(m) => "Hardware error: "@ + m@,
        BackendError::IoError(m) => "I/O error: "@ + m@,
        BackendError::Internal(m) => "Internal error: "@ + m@,
        BackendError::MockError(m) => "Mock error: "@ + m@,
        BackendError::KeyNotExtractable => "Key is not extractable"@,
        BackendError::KeySensitive => "Key is sensitive"@,
        BackendError::ContextFinalized => "Context already finalized"@,
        BackendError::OperationActive => "Operation already active"@,
        BackendError::NotInitialized => "Backend not initialized"@,
        BackendError::Timeout => "Operation timed out"@,
        BackendError::OutOfMemory => "Memory allocation failed"@,
        BackendError::BufferTooSmall { required, provided } => "Buffer too small: required "@ + decimal(
            required as nat,
        ) + ", provided "@ + decimal(provided as nat),
    }
}

impl BackendError {
    /// The error's message.
    pub fn message(&self) -> (r: String)
        ensures
            r@ == error_message(*self),
    {
        match self {
            BackendError::General(m) => String::from_str("Backend error: ").concat(m.as_str()),
            BackendError::UnsupportedAlgorithm(m) => String::from_str("Unsupported algorithm: ").concat(m.as_str()),
            BackendError::UnsupportedMechanism(m) => String::from_str("Unsupported mechanism: ").concat(m.as_str()),
            BackendError::UnsupportedOperation(m) => String::from_str("Unsupported operation: ").concat(m.as_str()),
            BackendError::KeyGeneration(m) => String::from_str("Key generation failed: ").concat(m.as_str()),
            BackendError::KeyDerivation(m) => String::from_str("Key derivation failed: ").concat(m.as_str()),
            BackendError::InvalidKeyData(m) => String::from_str("Invalid key data: ").concat(m.as_str()),
            BackendError::InvalidKey(m) => String::from_str("Invalid key type: ").concat(m.as_str()),
            BackendError::InvalidCertificate(m) => String::from_str("Invalid certificate: ").concat(m.as_str()),
            BackendError::DigestOperation(m) => String::from_str("Digest operation failed: ").concat(m.as_str()),
            BackendError::DigestUpdate(m) => String::from_str("Digest update failed: ").concat(m.as_str()),
            BackendError::DigestFinalize(m) => String::from_str("Digest finalization failed: ").concat(m.as_str()),
            BackendError::SignOperation(m) => String::from_str("Signing failed: ").concat(m.as_str()),
            BackendError::VerifyOperation(m) => String::from_str("Verification failed: ").concat(m.as_str()),
            BackendError::EncryptOperation(m) => String::from_str("Encryption failed: ").concat(m.as_str()),
            BackendError::DecryptOperation(m) => String::from_str("Decryption failed: ").concat(m.as_str()),
            BackendError::RandomGeneration(m) => String::from_str("Random generation failed: ").concat(m.as_str()),
            BackendError::InvalidState(m) => String::from_str("Invalid operation state: ").concat(m.as_str()),
            BackendError::InvalidParameters(m) => String::from_str("Invalid parameters: ").concat(m.as_str()),
            BackendError::InvalidDataLength(m) => String::from_str("Invalid data length: ").concat(m.as_str()),
            BackendError::ReadOnlyAttribute(m) => String::from_str("Read-only attribute: ").concat(m.as_str()),
            BackendError::InitializationFailed(m) => String::from_str("Backend initialization failed: ").concat(m.as_str()),
            BackendError::HardwareError(m) => String::from_str("Hardware error: ").concat(m.as_str()),
            BackendError::IoError(m) => String::from_str("I/O error: ").concat(m.as_str()),
            BackendError::Internal(m) => String::from_str("Internal error: ").concat(m.as_str()),
            BackendError::MockError(m) => String::from_str("Mock error: ").concat(m.as_str()),
            BackendError::KeyNotExtractable => String::from_str("Key is not extractable"),
            BackendError::KeySensitive => String::from_str("Key is sensitive"),
            BackendError::ContextFinalized => String::from_str("Context already finalized"),
            BackendError::OperationActive => String::from_str("Operation already active"),
            BackendError::NotInitialized => String::from_str("Backend not initialized"),
            BackendError::Timeout => String::from_str("Operation timed out"),
            BackendError::OutOfMemory => String::from_str("Memory allocation failed"),
            BackendError::BufferTooSmall { required, provided } => String::from_str("Buffer too small: required ").concat(
                usize_to_decimal(*required).as_str(),
            ).concat(", provided ").concat(usize_to_decimal(*provided).as_str()),
        }
    }
}

} // verus!
