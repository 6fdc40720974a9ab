//! The crypto bridge: operation contexts made from token key objects, the
//! context interfaces the provider drives, and their error type.

use vstd::prelude::*;
use vstd::std_specs::convert::FromSpecImpl;
use crate::p11::api::Mechanism;
use crate::p11::bridge::context::{
    BridgeDigestContext, BridgeSignContext, BridgeVerifyContext, OpCtxState, ck_digest_algorithm, op_transition,
    signature_length, zero_bytes,
};
use crate::p11::bridge::key::{BridgeKey, MechKey, key_for_mechanism, mech_key_object};
use crate::p11::bridge::backend_result_to_p11_result;
use crate::p11::ck::{Error, Result};
use crate::p11::db::Object;
use crate::types::error::{BackendError, BackendResult};
use crate::types::mechanism::digest_len;

verus! {

/// Errors of the provider's operation contexts.
#[derive(Clone, Copy, Debug, PartialEq, Eq, Structural)]
pub enum CryptoError {
    BadFlow,
    BadMech,
    BadMgf,
    BadSigFormat,
    BignumAlloc,
    DataMissing,
    Digest,
    DigestInit,
    DigestFinal,
    DigestSign,
    DigestSignFinal,
    DigestSignUpdate,
    DigestUpdate,
    DirectSign,
    MdCtxInit,
    GeneralError,
    OperationActive,
    PkeyCtxInit,
    PkeyCtxCtl,
    SignInit,
    VerifyInit,
    DigestVerify,
    DigestVerifyFinal,
    DigestVerifyUpdate,
    DirectVerify,
    DecryptInit,
    DirectDecrypt,
    EncryptInit,
    Encrypt,
    BadKeyType,
    UnknownKeyType,
    CertBadPem,
    CertName,
    CertIssuer,
    CertSerialNo,
    CertDerEncode,
    CertChainErr,
    CertChainInvalid,
}

/// The context error that stands for a backend error.
pub open spec fn crypto_error_of(err: BackendError) -> CryptoError {
    match err {
        BackendError::UnsupportedMechanism(_) => CryptoError::BadMech,
        BackendError::InvalidKey(_) => CryptoError::BadKeyType,
        BackendError::DigestOperation(_) => CryptoError::Digest,
        BackendError::DigestUpdate(_) => CryptoError::DigestUpdate,
        BackendError::DigestFinalize(_) => CryptoError::DigestFinal,
        BackendError::SignOperation(_) => CryptoError::DirectSign,
        BackendError::VerifyOperation(_) => CryptoError::DirectVerify,
        BackendError::OperationActive => CryptoError::OperationActive,
        BackendError::InvalidDataLength(_) => CryptoError::DataMissing,
        _ => CryptoError::GeneralError,
    }
}

impl From<BackendError> for CryptoError {
    fn from(err: BackendError) -> (r: Self) {
        match err {
            BackendError::UnsupportedMechanism(_) => CryptoError::BadMech,
            BackendError::InvalidKey(_) => CryptoError::BadKeyType,
            BackendError::DigestOperation(_) => CryptoError::Digest,
            BackendError::DigestUpdate(_) => CryptoError::DigestUpdate,
            BackendError::DigestFinalize(_) => CryptoError::DigestFinal,
            BackendError::SignOperation(_) => CryptoError::DirectSign,
            BackendError::VerifyOperation(_) => CryptoError::DirectVerify,
            BackendError::OperationActive => CryptoError::OperationActive,
            BackendError::InvalidDataLength(_) => CryptoError::DataMissing,
            _ => CryptoError::GeneralError,
        }
    }
}

impl FromSpecImpl<BackendError> for CryptoError {
    open spec fn obeys_from_spec() -> bool {
        true
    }

    open spec fn from_spec(v: BackendError) -> CryptoError {
        crypto_error_of(v)
    }
}

/// A backend result with its error as a context error.
fn crypto_result<T>(r: BackendResult<T>) -> (out: core::result::Result<T, CryptoError>)
    ensures
        match r {
            Ok(v) => out == Ok::<T, CryptoError>(v),
            Err(e) => out == Err::<T, CryptoError>(crypto_error_of(e)),
        },
{
    match r {
        Ok(v) => Ok(v),
        Err(e) => Err(CryptoError::from(e)),
    }
}

/// A signing operation as the provider drives it.
pub trait SignCtx {
    /// Takes in more data.
    fn update(&mut self, data: &[u8]) -> core::result::Result<(), CryptoError>;

    /// The signature over the data taken in.
    fn finalize(self) -> core::result::Result<Vec<u8>, CryptoError>;

    /// A single-part signature of `data`.
    fn sign(self, data: &[u8]) -> core::result::Result<Vec<u8>, CryptoError>;

    /// The signature length as a `CK_ULONG`.
    fn sig_len_ck(&self) -> u64;

    /// Moves the operation to `state`.
    fn enter_state(&mut self, state: OpCtxState) -> core::result::Result<(), CryptoError>;
}

/// A verification operation as the provider drives it.
pub trait VerifyCtx {
    /// Takes in more data.
    fn update(&mut self, data: &[u8]) -> core::result::Result<(), CryptoError>;

    /// Checks `signature` over the data taken in.
    fn finalize(self, signature: &[u8]) -> core::result::Result<(), CryptoError>;

    /// Checks `signature` over `data` in one part.
    fn verify(self, data: &[u8], signature: &[u8]) -> core::result::Result<(), CryptoError>;

    /// Moves the operation to `state`.
    fn enter_state(&mut self, state: OpCtxState) -> core::result::Result<(), CryptoError>;

    /// Whether a signature of `sig_len` bytes is acceptable.
    fn verify_sig_len_ck(&self, sig_len: usize) -> bool;
}

/// An encryption operation as the provider drives it.
pub trait EncryptCtx {
    /// Encrypts `data` in one part.
    fn encrypt(self, data: &[u8]) -> core::result::Result<Vec<u8>, CryptoError>;

    /// Moves the operation to `state`.
    fn enter_state(&mut self, state: OpCtxState) -> core::result::Result<(), CryptoError>;

    /// The output length.
    fn len(&self) -> usize;
}

/// A decryption operation as the provider drives it.
pub trait DecryptCtx {
    /// Decrypts `data` in one part.
    fn decrypt(self, data: &[u8]) -> core::result::Result<Vec<u8>, CryptoError>;

    /// Moves the operation to `state`.
    fn enter_state(&mut self, state: OpCtxState) -> core::result::Result<(), CryptoError>;

    /// The output length.
    fn len(&self) -> usize;
}

/// An encryption that pads each input with 16 zero bytes more than it had;
/// its output is all zeros.
pub struct DirectEncryptCtx {
    mechanism: Mechanism,
    key: BridgeKey,
}

impl DirectEncryptCtx {
    /// The mechanism.
    pub closed spec fn spec_mechanism(&self) -> Mechanism {
        self.mechanism
    }

    /// An encryption with `mech` under `key`.
    pub fn new(mech: &Mechanism, key: BridgeKey) -> (r: core::result::Result<Self, CryptoError>)
        ensures
            r matches Ok(c) && c.spec_mechanism() == *mech,
    {
        Ok(DirectEncryptCtx { mechanism: *mech, key })
    }
}

/// The length of the all-zero output for every operation context that
/// reports one.
pub const DIRECT_CTX_LEN: usize = 256;

fn zeros(n: usize) -> (r: Vec<u8>)
    ensures
        r@ == zero_bytes(n as nat),
{
    let r = vec![0u8; n];
    proof {
        assert(r@ =~= zero_bytes(n as nat));
    }
    r
}

impl EncryptCtx for DirectEncryptCtx {
    /// `data.len() + 16` zero bytes.
    fn encrypt(self, data: &[u8]) -> (r: core::result::Result<Vec<u8>, CryptoError>)
        ensures
            data@.len() + 16 <= usize::MAX ==> (r matches Ok(v) && v@ == zero_bytes(data@.len() + 16)),
            data@.len() + 16 > usize::MAX ==> r == Err::<Vec<u8>, CryptoError>(CryptoError::Encrypt),
    {
        match data.len().checked_add(16) {
            Some(n) => Ok(zeros(n)),
            None => Err(CryptoError::Encrypt),
        }
    }

    fn enter_state(&mut self, state: OpCtxState) -> (r: core::result::Result<(), CryptoError>)
        ensures
            r is Ok,
    {
        Ok(())
    }

    fn len(&self) -> (r: usize)
        ensures
            r == DIRECT_CTX_LEN,
    {
        DIRECT_CTX_LEN
    }
}

/// A decryption that drops 16 bytes of each input (all of a shorter one);
/// its output is all zeros.
pub struct DirectDecryptCtx {
    mechanism: Mechanism,
    key: BridgeKey,
}

impl DirectDecryptCtx {
    /// The mechanism.
    pub closed spec fn spec_mechanism(&self) -> Mechanism {
        self.mechanism
    }

    /// A decryption with `mech` under `key`.
    pub fn new(mech: &Mechanism, key: BridgeKey) -> (r: core::result::Result<Self, CryptoError>)
        ensures
            r matches Ok(c) && c.spec_mechanism() == *mech,
    {
        Ok(DirectDecryptCtx { mechanism: *mech, key })
    }
}

/// `a - b`, or 0 where `b` exceeds `a`.
pub open spec fn sat_sub(a: nat, b: nat) -> nat {
    if a >= b { (a - b) as nat } else { 0 }
}

impl DecryptCtx for DirectDecryptCtx {
    /// `data.len() - 16` zero bytes, none for a shorter input.
    fn decrypt(self, data: &[u8]) -> (r: core::result::Result<Vec<u8>, CryptoError>)
        ensures
            r matches Ok(v) && v@ == zero_bytes(sat_sub(data@.len(), 16)),
    {
        Ok(zeros(data.len().saturating_sub(16)))
    }

    fn enter_state(&mut self, state: OpCtxState) -> (r: core::result::Result<(), CryptoError>)
        ensures
            r is Ok,
    {
        Ok(())
    }

    fn len(&self) -> (r: usize)
        ensures
            r == DIRECT_CTX_LEN,
    {
        DIRECT_CTX_LEN
    }
}

/// A digest operation as the provider drives it, over a backend handle.
pub struct DigestCtx<B> {
    inner: BridgeDigestContext<B>,
}

impl<B> DigestCtx<B> {
    /// The digest algorithm.
    pub closed spec fn spec_inner(&self) -> BridgeDigestContext<B> {
        self.inner
    }

    /// A digest context needs a backend handle, which a mechanism type alone
    /// does not give: always refused.
    pub fn new(mech_type: u64) -> (r: core::result::Result<Self, CryptoError>)
        ensures
            r is Err && r == Err::<Self, CryptoError>(CryptoError::GeneralError),
    {
        Err(CryptoError::GeneralError)
    }

    /// Takes in more data.
    pub fn update(&mut self, data: &[u8]) -> (r: core::result::Result<(), CryptoError>)
        ensures
            r is Ok,
            final(self).spec_inner().spec_data() == old(self).spec_inner().spec_data() + data@,
            final(self).spec_inner().spec_algorithm() == old(self).spec_inner().spec_algorithm(),
    {
        crypto_result(self.inner.update(data))
    }

    /// The digest over the data taken in.
    pub fn finalize(self) -> (r: core::result::Result<Vec<u8>, CryptoError>)
        ensures
            r matches Ok(v) && v@ == zero_bytes(digest_len(self.spec_inner().spec_algorithm())),
    {
        crypto_result(self.inner.finalize())
    }

    /// A single-part digest of `data`.
    pub fn digest(self, data: &[u8]) -> (r: core::result::Result<Vec<u8>, CryptoError>)
        ensures
            r matches Ok(v) && v@ == zero_bytes(digest_len(self.spec_inner().spec_algorithm())),
    {
        crypto_result(self.inner.digest(data))
    }
}

/// The crypto bridge: makes operation contexts over a backend handle.
pub struct CryptoBridge<B> {
    backend: B,
}

impl<B: Clone> CryptoBridge<B> {
    /// A bridge over `backend`.
    pub fn new(backend: B) -> (r: Self)
        ensures
            r.spec_backend() == backend,
    {
        CryptoBridge { backend }
    }

    /// The backend handle.
    pub closed spec fn spec_backend(&self) -> B {
        self.backend
    }

    /// A digest context for the digest mechanism `mech_type`.
    pub fn create_digest_context(&self, mech_type: u64) -> (r: Result<BridgeDigestContext<B>>)
        ensures
            match ck_digest_algorithm(mech_type) {
                Some(alg) => r matches Ok(c) && c.spec_algorithm() == alg && c.spec_state()
                    == OpCtxState::Initialized && c.spec_data() == Seq::<u8>::empty(),
                None => r == Err::<BridgeDigestContext<B>, Error>(Error::MechanismInvalid),
            },
    {
        let r = BridgeDigestContext::new(self.backend.clone(), mech_type);
        backend_result_to_p11_result(r)
    }

    /// A context that signs data as given, with the private key `mech` takes
    /// from `key_obj`.
    pub fn create_direct_sign_context(&self, mech: &Mechanism, key_obj: &Object) -> (r: Result<BridgeSignContext<B>>)
        ensures
            match mech_key_object(*mech, key_obj.spec_kind(), true) {
                MechKey::Key(_, _) => r matches Ok(c) && c.spec_mechanism() == *mech && c.spec_state()
                    == OpCtxState::Initialized && c.spec_sig_len() == signature_length(*mech),
                MechKey::Inconsistent => r == Err::<BridgeSignContext<B>, Error>(Error::KeyTypeInconsistent),
                MechKey::Invalid => r == Err::<BridgeSignContext<B>, Error>(Error::MechanismInvalid),
            },
    {
        let key = key_for_mechanism(mech, key_obj, true)?;
        backend_result_to_p11_result(BridgeSignContext::new_direct(self.backend.clone(), mech, key))
    }

    /// A context that signs a digest of the data, with the private key
    /// `mech` takes from `key_obj`.
    pub fn create_digest_sign_context(&self, mech: &Mechanism, key_obj: &Object) -> (r: Result<BridgeSignContext<B>>)
        ensures
            match mech_key_object(*mech, key_obj.spec_kind(), true) {
                MechKey::Key(_, _) => r matches Ok(c) && c.spec_mechanism() == *mech && c.spec_state()
                    == OpCtxState::Initialized && c.spec_sig_len() == signature_length(*mech),
                MechKey::Inconsistent => r == Err::<BridgeSignContext<B>, Error>(Error::KeyTypeInconsistent),
                MechKey::Invalid => r == Err::<BridgeSignContext<B>, Error>(Error::MechanismInvalid),
            },
    {
        let key = key_for_mechanism(mech, key_obj, true)?;
        backend_result_to_p11_result(BridgeSignContext::new_digest(self.backend.clone(), mech, key))
    }

    /// A context that verifies over data as given, with the public key
    /// `mech` takes from `key_obj`.
    pub fn create_direct_verify_context(&self, mech: &Mechanism, key_obj: &Object) -> (r: Result<
        BridgeVerifyContext<B>,
    >)
        ensures
            match mech_key_object(*mech, key_obj.spec_kind(), false) {
                MechKey::Key(_, _) => r matches Ok(c) && c.spec_mechanism() == *mech && c.spec_state()
                    == OpCtxState::Initialized,
                MechKey::Inconsistent => r == Err::<BridgeVerifyContext<B>, Error>(Error::KeyTypeInconsistent),
                MechKey::Invalid => r == Err::<BridgeVerifyContext<B>, Error>(Error::MechanismInvalid),
            },
    {
        let key = key_for_mechanism(mech, key_obj, false)?;
        backend_result_to_p11_result(BridgeVerifyContext::new_direct(self.backend.clone(), mech, key))
    }

    /// A context that verifies over a digest of the data, with the public
    /// key `mech` takes from `key_obj`.
    pub fn create_digest_verify_context(&self, mech: &Mechanism, key_obj: &Object) -> (r: Result<
        BridgeVerifyContext<B>,
    >)
        ensures
            match mech_key_object(*mech, key_obj.spec_kind(), false) {
                MechKey::Key(_, _) => r matches Ok(c) && c.spec_mechanism() == *mech && c.spec_state()
                    == OpCtxState::Initialized,
                MechKey::Inconsistent => r == Err::<BridgeVerifyContext<B>, Error>(Error::KeyTypeInconsistent),
                MechKey::Invalid => r == Err::<BridgeVerifyContext<B>, Error>(Error::MechanismInvalid),
            },
    {
        let key = key_for_mechanism(mech, key_obj, false)?;
        backend_result_to_p11_result(BridgeVerifyContext::new_digest(self.backend.clone(), mech, key))
    }

    /// The backend handle.
    pub fn backend(&self) -> (r: &B)
        ensures
            *r == self.spec_backend(),
    {
        &self.backend
    }
}

} // verus!
