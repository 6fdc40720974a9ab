//! The bridge between the PKCS#11 provider and the backend layer: error
//! translation, key handles built from token objects, and operation
//! contexts.

pub mod context;
pub mod crypto;
pub mod key;

use vstd::prelude::*;
use crate::p11::ck::{
    Error, CKR_ARGUMENTS_BAD, CKR_ATTRIBUTE_SENSITIVE, CKR_BUFFER_TOO_SMALL, CKR_CRYPTOKI_NOT_INITIALIZED,
    CKR_DATA_INVALID, CKR_DATA_LEN_RANGE, CKR_FUNCTION_FAILED, CKR_HOST_MEMORY, CKR_OPERATION_ACTIVE,
    CKR_OPERATION_NOT_INITIALIZED, CKR_SIGNATURE_INVALID,
};
use crate::types::error::{BackendError, BackendResult};

verus! {

/// The PKCS#11 error that stands for a backend error.
pub open spec fn p11_error_of(err: BackendError) -> Error {
    match err {
        BackendError::UnsupportedAlgorithm(_) => Error::MechanismInvalid,
        BackendError::UnsupportedMechanism(_) => Error::MechanismInvalid,
        BackendError::UnsupportedOperation(_) => Error::MechanismInvalid,
        BackendError::InvalidKey(_) => Error::KeyHandleInvalid,
        BackendError::InvalidKeyData(_) => Error::KeyTypeInconsistent,
        BackendError::KeyNotExtractable => Error::CkError(CKR_ATTRIBUTE_SENSITIVE),
        BackendError::KeySensitive => Error::CkError(CKR_ATTRIBUTE_SENSITIVE),
        BackendError::InvalidCertificate(_) => Error::CkError(CKR_DATA_INVALID),
        BackendError::DigestOperation(_) => Error::CkError(CKR_FUNCTION_FAILED),
        BackendError::DigestUpdate(_) => Error::CkError(CKR_FUNCTION_FAILED),
        BackendError::DigestFinalize(_) => Error::CkError(CKR_FUNCTION_FAILED),
        BackendError::SignOperation(_) => Error::CkError(CKR_FUNCTION_FAILED),
        BackendError::VerifyOperation(_) => Error::CkError(CKR_SIGNATURE_INVALID),
        BackendError::EncryptOperation(_) => Error::CkError(CKR_FUNCTION_FAILED),
        BackendError::DecryptOperation(_) => Error::CkError(CKR_FUNCTION_FAILED),
        BackendError::OperationActive => Error::CkError(CKR_OPERATION_ACTIVE),
        BackendError::ContextFinalized => Error::OperationNotInitialized,
        BackendError::InvalidState(_) => Error::CkError(CKR_OPERATION_NOT_INITIALIZED),
        BackendError::InvalidParameters(_) => Error::CkError(CKR_ARGUMENTS_BAD),
        BackendError::BufferTooSmall { .. } => Error::CkError(CKR_BUFFER_TOO_SMALL),
        BackendError::InvalidDataLength(_) => Error::CkError(CKR_DATA_LEN_RANGE),
        BackendError::NotInitialized => Error::CkError(CKR_CRYPTOKI_NOT_INITIALIZED),
        BackendError::OutOfMemory => Error::CkError(CKR_HOST_MEMORY),
        _ => Error::GeneralError,
    }
}

/// The PKCS#11 error that stands for a backend error.
pub fn backend_error_to_p11_error(err: BackendError) -> (r: Error)
    ensures
        r == p11_error_of(err),
{
    match err {
        BackendError::UnsupportedAlgorithm(_) => Error::MechanismInvalid,
        BackendError::UnsupportedMechanism(_) => Error::MechanismInvalid,
        BackendError::UnsupportedOperation(_) => Error::MechanismInvalid,
        BackendError::InvalidKey(_) => Error::KeyHandleInvalid,
        BackendError::InvalidKeyData(_) => Error::KeyTypeInconsistent,
        BackendError::KeyNotExtractable => Error::CkError(CKR_ATTRIBUTE_SENSITIVE),
        BackendError::KeySensitive => Error::CkError(CKR_ATTRIBUTE_SENSITIVE),
        BackendError::InvalidCertificate(_) => Error::CkError(CKR_DATA_INVALID),
        BackendError::DigestOperation(_) => Error::CkError(CKR_FUNCTION_FAILED),
        BackendError::DigestUpdate(_) => Error::CkError(CKR_FUNCTION_FAILED),
        BackendError::DigestFinalize(_) => Error::CkError(CKR_FUNCTION_FAILED),
        BackendError::SignOperation(_) => Error::CkError(CKR_FUNCTION_FAILED),
        BackendError::VerifyOperation(_) => Error::CkError(CKR_SIGNATURE_INVALID),
        BackendError::EncryptOperation(_) => Error::CkError(CKR_FUNCTION_FAILED),
        BackendError::DecryptOperation(_) => Error::CkError(CKR_FUNCTION_FAILED),
        BackendError::OperationActive => Error::CkError(CKR_OPERATION_ACTIVE),
        BackendError::ContextFinalized => Error::OperationNotInitialized,
        BackendError::InvalidState(_) => Error::CkError(CKR_OPERATION_NOT_INITIALIZED),
        BackendError::InvalidParameters(_) => Error::CkError(CKR_ARGUMENTS_BAD),
        BackendError::BufferTooSmall { .. } => Error::CkError(CKR_BUFFER_TOO_SMALL),
        BackendError::InvalidDataLength(_) => Error::CkError(CKR_DATA_LEN_RANGE),
        BackendError::NotInitialized => Error::CkError(CKR_CRYPTOKI_NOT_INITIALIZED),
        BackendError::OutOfMemory => Error::CkError(CKR_HOST_MEMORY),
        _ => Error::GeneralError,
    }
}

/// A backend result as a PKCS#11 result: the value kept, the error
/// translated.
pub fn backend_result_to_p11_result<T>(result: BackendResult<T>) -> (r: crate::p11::ck::Result<T>)
    ensures
        match result {
            Ok(v) => r == Ok::<T, Error>(v),
            Err(e) => r == Err::<T, Error>(p11_error_of(e)),
        },
{
    match result {
        Ok(v) => Ok(v),
        Err(e) => Err(backend_error_to_p11_error(e)),
    }
}

} // verus!
