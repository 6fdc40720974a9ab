//! PKCS#11 constants and the provider's error type.

use vstd::prelude::*;

verus! {

/// `CK_RV` values.
pub const CKR_OK: u64 = 0x0000;
pub const CKR_HOST_MEMORY: u64 = 0x0002;
pub const CKR_GENERAL_ERROR: u64 = 0x0005;
pub const CKR_FUNCTION_FAILED: u64 = 0x0006;
pub const CKR_ARGUMENTS_BAD: u64 = 0x0007;
pub const CKR_FUNCTION_NOT_SUPPORTED: u64 = 0x0054;
pub const CKR_ATTRIBUTE_SENSITIVE: u64 = 0x0011;
pub const CKR_DATA_INVALID: u64 = 0x0020;
pub const CKR_DATA_LEN_RANGE: u64 = 0x0021;
pub const CKR_KEY_HANDLE_INVALID: u64 = 0x0060;
pub const CKR_KEY_TYPE_INCONSISTENT: u64 = 0x0063;
pub const CKR_MECHANISM_INVALID: u64 = 0x0070;
pub const CKR_OPERATION_ACTIVE: u64 = 0x0090;
pub const CKR_OPERATION_NOT_INITIALIZED: u64 = 0x0091;
pub const CKR_SIGNATURE_INVALID: u64 = 0x00C0;
pub const CKR_USER_NOT_LOGGED_IN: u64 = 0x0101;
pub const CKR_BUFFER_TOO_SMALL: u64 = 0x0150;
pub const CKR_CRYPTOKI_NOT_INITIALIZED: u64 = 0x0190;

/// `CK_STATE` values.
pub const CKS_RO_PUBLIC_SESSION: u64 = 0;
pub const CKS_RO_USER_FUNCTIONS: u64 = 1;

/// Digest `CK_MECHANISM_TYPE` values.
pub const CKM_SHA_1: u64 = 0x0220;
pub const CKM_SHA224: u64 = 0x0255;
pub const CKM_SHA256: u64 = 0x0250;
pub const CKM_SHA384: u64 = 0x0260;
pub const CKM_SHA512: u64 = 0x0270;

/// HMAC `CK_MECHANISM_TYPE` values.
pub const CKM_SHA_1_HMAC: u64 = 0x0221;
pub const CKM_SHA224_HMAC: u64 = 0x0256;
pub const CKM_SHA256_HMAC: u64 = 0x0251;
pub const CKM_SHA384_HMAC: u64 = 0x0261;
pub const CKM_SHA512_HMAC: u64 = 0x0271;

/// RSA `CK_MECHANISM_TYPE` values.
pub const CKM_RSA_PKCS: u64 = 0x0001;
pub const CKM_RSA_X_509: u64 = 0x0003;
pub const CKM_SHA1_RSA_PKCS: u64 = 0x0006;
pub const CKM_RSA_PKCS_OAEP: u64 = 0x0009;
pub const CKM_RSA_PKCS_PSS: u64 = 0x000D;
pub const CKM_SHA256_RSA_PKCS: u64 = 0x0040;
pub const CKM_SHA384_RSA_PKCS: u64 = 0x0041;
pub const CKM_SHA512_RSA_PKCS: u64 = 0x0042;
pub const CKM_SHA224_RSA_PKCS: u64 = 0x0046;

/// ECDSA `CK_MECHANISM_TYPE` values.
pub const CKM_ECDSA: u64 = 0x1041;
pub const CKM_ECDSA_SHA1: u64 = 0x1042;
pub const CKM_ECDSA_SHA224: u64 = 0x1043;
pub const CKM_ECDSA_SHA256: u64 = 0x1044;
pub const CKM_ECDSA_SHA384: u64 = 0x1045;
pub const CKM_ECDSA_SHA512: u64 = 0x1046;

/// AES `CK_MECHANISM_TYPE` values.
pub const CKM_AES_ECB: u64 = 0x1081;
pub const CKM_AES_CBC: u64 = 0x1082;
pub const CKM_AES_CTR: u64 = 0x1086;
pub const CKM_AES_GCM: u64 = 0x1087;

/// Errors of the PKCS#11 provider.
#[derive(Debug, Clone, Copy, PartialEq, Eq, Structural)]
pub enum Error {
    GeneralError,
    MechanismInvalid,
    KeyHandleInvalid,
    KeyTypeInconsistent,
    OperationNotInitialized,
    UserNotLoggedIn,
    /// An error given by its `CK_RV` code.
    CkError(u64),
}

/// The `CK_RV` each provider error is reported as.
pub open spec fn ck_rv(e: Error) -> u64 {
    match e {
        Error::GeneralError => CKR_GENERAL_ERROR,
        Error::MechanismInvalid => CKR_MECHANISM_INVALID,
        Error::KeyHandleInvalid => CKR_KEY_HANDLE_INVALID,
        Error::KeyTypeInconsistent => CKR_KEY_TYPE_INCONSISTENT,
        Error::OperationNotInitialized => CKR_OPERATION_NOT_INITIALIZED,
        Error::UserNotLoggedIn => CKR_USER_NOT_LOGGED_IN,
        Error::CkError(rv) => rv,
    }
}

impl Error {
    /// The `CK_RV` the error is reported as.
    pub fn to_ck_rv(&self) -> (r: u64)
        ensures
            r == ck_rv(*self),
    {
        match self {
            Error::GeneralError => CKR_GENERAL_ERROR,
            Error::MechanismInvalid => CKR_MECHANISM_INVALID,
            Error::KeyHandleInvalid => CKR_KEY_HANDLE_INVALID,
            Error::KeyTypeInconsistent => CKR_KEY_TYPE_INCONSISTENT,
            Error::OperationNotInitialized => CKR_OPERATION_NOT_INITIALIZED,
            Error::UserNotLoggedIn => CKR_USER_NOT_LOGGED_IN,
            Error::CkError(rv) => *rv,
        }
    }
}

/// The result type of the PKCS#11 provider.
pub type Result<T> = core::result::Result<T, Error>;

} // verus!
