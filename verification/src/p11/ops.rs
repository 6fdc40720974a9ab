//! The PKCS#11 digest, sign, verify and decrypt functions on a session, with
//! the `CK_RV` each outcome is reported as. Buffers come in as slices and
//! results go out as vectors; copying them across the C interface is the
//! caller's part.

use vstd::prelude::*;
use crate::p11::api::{DigestContext, Error as ApiError, Mechanism, SignContext, VerifyContext, VtokBackend, bytes_of, ck_mech};
use crate::p11::ck::{
    Error, CKR_FUNCTION_NOT_SUPPORTED, CKR_GENERAL_ERROR, CKR_MECHANISM_INVALID, CKR_OK, CKR_OPERATION_NOT_INITIALIZED,
    CKR_SIGNATURE_INVALID, ck_rv,
};
use crate::p11::db::ObjectHandle;
use crate::p11::session::{
    Session, backend_digest_gives, key_unloadable, mech_key_pem, sign_refused, sign_started, verify_refused,
    verify_started,
};

verus! {

/// The session's state apart from its digest, signing and verification
/// operations is the same in `a` and `b`.
pub open spec fn same_session_state<B: VtokBackend>(a: Session<B>, b: Session<B>) -> bool {
    &&& a.spec_state() == b.spec_state()
    &&& a.spec_enum() == b.spec_enum()
    &&& a.spec_objects() == b.spec_objects()
    &&& a.spec_slot_id() == b.spec_slot_id()
    &&& a.spec_backend() == b.spec_backend()
}

/// Whether adding `data` to the digest operation `c` and then finishing it
/// may give `r`: the error of the update, or what finishing gives after a
/// successful update.
pub open spec fn digest_gives<C: DigestContext>(c: C, data: Seq<u8>, r: core::result::Result<Seq<u8>, ApiError>) -> bool {
    exists|u: core::result::Result<(), ApiError>, mid: C|
        #[trigger] c.spec_update(data, u, mid) && match u {
            Ok(_) => mid.spec_finalize(r),
            Err(e) => r == Err::<Seq<u8>, ApiError>(e),
        }
}

/// Whether adding `data` to the signing operation `c` and then finishing it
/// may give `r`.
pub open spec fn sign_gives<C: SignContext>(c: C, data: Seq<u8>, r: core::result::Result<Seq<u8>, ApiError>) -> bool {
    exists|u: core::result::Result<(), ApiError>, mid: C|
        #[trigger] c.spec_update(data, u, mid) && match u {
            Ok(_) => mid.spec_finalize(r),
            Err(e) => r == Err::<Seq<u8>, ApiError>(e),
        }
}

/// Whether adding `data` to the verification `c` may succeed and checking
/// `signature` afterwards then give a result for which `accepted` holds
/// (`true` for a success, `false` for a failure).
pub open spec fn verify_checks<C: VerifyContext>(c: C, data: Seq<u8>, signature: Seq<u8>, accepted: bool) -> bool {
    exists|u: core::result::Result<(), ApiError>, mid: C, f: core::result::Result<(), ApiError>|
        #![trigger c.spec_update(data, u, mid), mid.spec_finalize(signature, f)]
        c.spec_update(data, u, mid) && u is Ok && mid.spec_finalize(signature, f) && (f is Ok) == accepted
}

/// Whether adding `data` to the verification `c` may fail.
pub open spec fn verify_update_fails<C: VerifyContext>(c: C, data: Seq<u8>) -> bool {
    exists|u: core::result::Result<(), ApiError>, mid: C| #[trigger] c.spec_update(data, u, mid) && u is Err
}

/// Starts a digest operation with the mechanism a raw code names: an unknown
/// code or one the backend refuses is an invalid mechanism.
pub fn digest_init<B: VtokBackend>(session: &mut Session<B>, raw_mech: u64) -> (rv: u64)
    ensures
        ck_mech(raw_mech) is None ==> rv == CKR_MECHANISM_INVALID && *final(session) == *old(session),
        ck_mech(raw_mech) is Some ==> (rv == CKR_OK || rv == CKR_MECHANISM_INVALID),
        rv == CKR_OK ==> (final(session).spec_digest_ctx() matches Some(c) && backend_digest_gives(
            old(session).spec_backend(),
            ck_mech(raw_mech).unwrap(),
            Ok(c),
        )),
        ck_mech(raw_mech) is Some && rv == CKR_MECHANISM_INVALID ==> exists|e: ApiError|
            backend_digest_gives(old(session).spec_backend(), ck_mech(raw_mech).unwrap(), Err(e)),
        rv != CKR_OK ==> final(session).spec_digest_ctx() == old(session).spec_digest_ctx(),
        final(session).spec_sign_ctx() == old(session).spec_sign_ctx(),
        final(session).spec_verify_ctx() == old(session).spec_verify_ctx(),
        same_session_state(*final(session), *old(session)),
{
    let mech = match Mechanism::from_ckraw_mech(&raw_mech) {
        Some(m) => m,
        None => return CKR_MECHANISM_INVALID,
    };
    match session.digest_init(&mech) {
        Ok(()) => CKR_OK,
        Err(e) => e.to_ck_rv(),
    }
}

/// A single-part digest of `data` with the digest operation in progress,
/// which it ends: without one the operation was not initialized; a failing
/// update or finalization is a general error.
pub fn digest<B: VtokBackend>(session: &mut Session<B>, data: &[u8]) -> (r: Result<Vec<u8>, u64>)
    ensures
        old(session).spec_digest_ctx() is None ==> r == Err::<Vec<u8>, u64>(CKR_OPERATION_NOT_INITIALIZED),
        old(session).spec_digest_ctx() is Some ==> (r is Ok || r == Err::<Vec<u8>, u64>(CKR_GENERAL_ERROR)),
        old(session).spec_digest_ctx() matches Some(c) ==> (r matches Ok(d) ==> digest_gives(c, data@, Ok(d@))),
        old(session).spec_digest_ctx() matches Some(c) ==> (r is Err ==> exists|e: ApiError|
            digest_gives(c, data@, Err(e))),
        final(session).spec_digest_ctx() is None,
        final(session).spec_sign_ctx() == old(session).spec_sign_ctx(),
        final(session).spec_verify_ctx() == old(session).spec_verify_ctx(),
        same_session_state(*final(session), *old(session)),
{
    let mut ctx = match session.digest_ctx().take() {
        Some(ctx) => ctx,
        None => return Err(CKR_OPERATION_NOT_INITIALIZED),
    };
    let ghost start = ctx;
    let u = ctx.update(data);
    let ghost mid = ctx;
    match u {
        Ok(()) => {},
        Err(e) => {
            proof {
                assert(start.spec_update(data@, u, mid));
                assert(digest_gives(start, data@, Err::<Seq<u8>, ApiError>(e)));
            }
            return Err(CKR_GENERAL_ERROR);
        },
    }
    let f = ctx.finalize();
    proof {
        assert(start.spec_update(data@, u, mid));
        assert(mid.spec_finalize(bytes_of(f)));
        assert(digest_gives(start, data@, bytes_of(f)));
    }
    match f {
        Ok(d) => Ok(d),
        Err(_) => Err(CKR_GENERAL_ERROR),
    }
}

/// Adds `part` to the digest operation in progress, which goes on: without
/// one the operation was not initialized; a failing update is a general
/// error.
pub fn digest_update<B: VtokBackend>(session: &mut Session<B>, part: &[u8]) -> (rv: u64)
    ensures
        old(session).spec_digest_ctx() is None ==> rv == CKR_OPERATION_NOT_INITIALIZED,
        old(session).spec_digest_ctx() is Some ==> (rv == CKR_OK || rv == CKR_GENERAL_ERROR)
            && final(session).spec_digest_ctx() is Some,
        old(session).spec_digest_ctx() is None ==> final(session).spec_digest_ctx() is None,
        old(session).spec_digest_ctx() matches Some(c) ==> exists|u: core::result::Result<(), ApiError>|
            #[trigger] c.spec_update(part@, u, final(session).spec_digest_ctx().unwrap()) && (rv == CKR_OK <==> u is Ok),
        final(session).spec_sign_ctx() == old(session).spec_sign_ctx(),
        final(session).spec_verify_ctx() == old(session).spec_verify_ctx(),
        same_session_state(*final(session), *old(session)),
{
    match session.digest_ctx().take() {
        Some(mut ctx) => {
            let ghost start = ctx;
            let u = ctx.update(part);
            proof {
                assert(start.spec_update(part@, u, ctx));
            }
            let rv = match u {
                Ok(()) => CKR_OK,
                Err(_) => ck_rv_general(),
            };
            *session.digest_ctx() = Some(ctx);
            proof {
                assert(session.spec_digest_ctx().unwrap() == ctx);
                assert(start.spec_update(part@, u, session.spec_digest_ctx().unwrap()));
            }
            rv
        },
        None => Error::OperationNotInitialized.to_ck_rv(),
    }
}

/// The digest of the data added to the digest operation in progress, which
/// it ends: without one the operation was not initialized; a failing
/// finalization is a general error.
pub fn digest_final<B: VtokBackend>(session: &mut Session<B>) -> (r: Result<Vec<u8>, u64>)
    ensures
        old(session).spec_digest_ctx() is None ==> r == Err::<Vec<u8>, u64>(CKR_OPERATION_NOT_INITIALIZED),
        old(session).spec_digest_ctx() is Some ==> (r is Ok || r == Err::<Vec<u8>, u64>(CKR_GENERAL_ERROR)),
        old(session).spec_digest_ctx() matches Some(c) ==> (r matches Ok(d) ==> c.spec_finalize(Ok(d@))),
        old(session).spec_digest_ctx() matches Some(c) ==> (r is Err ==> exists|e: ApiError| c.spec_finalize(Err(e))),
        final(session).spec_digest_ctx() is None,
        final(session).spec_sign_ctx() == old(session).spec_sign_ctx(),
        final(session).spec_verify_ctx() == old(session).spec_verify_ctx(),
        same_session_state(*final(session), *old(session)),
{
    let ctx = match session.digest_ctx().take() {
        Some(ctx) => ctx,
        None => return Err(CKR_OPERATION_NOT_INITIALIZED),
    };
    let ghost start = ctx;
    let f = ctx.finalize();
    proof {
        assert(start.spec_finalize(bytes_of(f)));
    }
    match f {
        Ok(d) => Ok(d),
        Err(_) => Err(CKR_GENERAL_ERROR),
    }
}

/// `CKR_GENERAL_ERROR`, as a general error is reported.
fn ck_rv_general() -> (rv: u64)
    ensures
        rv == CKR_GENERAL_ERROR,
{
    Error::GeneralError.to_ck_rv()
}

/// The `CK_RV` a refused sign or verify initialization is reported as.
pub open spec fn init_refusal_rv<B: VtokBackend>(session: Session<B>, mech: Mechanism, key_handle: ObjectHandle) -> Option<u64> {
    if !session.spec_logged_in() {
        Some(ck_rv(Error::UserNotLoggedIn))
    } else if key_handle.0 >= session.spec_objects().len() {
        Some(ck_rv(Error::KeyHandleInvalid))
    } else if mech_key_pem(mech, session.spec_objects()[key_handle.0 as int].spec_kind()) is None {
        Some(ck_rv(Error::KeyTypeInconsistent))
    } else {
        None
    }
}

/// Starts a signing operation with the mechanism a raw code names and the
/// key behind `key_handle`: an unknown code is an invalid mechanism; the
/// session's refusals are reported by their `CK_RV`.
pub fn sign_init<B: VtokBackend>(session: &mut Session<B>, raw_mech: u64, key_handle: ObjectHandle) -> (rv: u64)
    ensures
        ck_mech(raw_mech) is None ==> rv == CKR_MECHANISM_INVALID && *final(session) == *old(session),
        ck_mech(raw_mech) matches Some(m) ==> match init_refusal_rv(*old(session), m, key_handle) {
            Some(e) => rv == e,
            None => rv == CKR_OK || rv == ck_rv(Error::KeyHandleInvalid) || rv == CKR_GENERAL_ERROR,
        },
        rv == CKR_OK ==> final(session).spec_sign_ctx() is Some,
        rv == CKR_OK ==> (final(session).spec_sign_ctx() matches Some(c) && sign_started(
            *old(session),
            ck_mech(raw_mech).unwrap(),
            key_handle,
            c,
        )),
        ck_mech(raw_mech) matches Some(m) ==> (init_refusal_rv(*old(session), m, key_handle) is None && rv == ck_rv(
            Error::KeyHandleInvalid,
        ) ==> key_unloadable(*old(session), m, key_handle)),
        ck_mech(raw_mech) matches Some(m) ==> (rv == CKR_GENERAL_ERROR ==> sign_refused(*old(session), m, key_handle)),
        rv != CKR_OK ==> final(session).spec_sign_ctx() == old(session).spec_sign_ctx(),
        final(session).spec_digest_ctx() == old(session).spec_digest_ctx(),
        final(session).spec_verify_ctx() == old(session).spec_verify_ctx(),
        same_session_state(*final(session), *old(session)),
{
    let mech = match Mechanism::from_ckraw_mech(&raw_mech) {
        Some(m) => m,
        None => return CKR_MECHANISM_INVALID,
    };
    match session.sign_init(&mech, key_handle) {
        Ok(()) => CKR_OK,
        Err(e) => e.to_ck_rv(),
    }
}

/// A single-part signature of `data` with the signing operation in
/// progress, which it ends: without one the operation was not initialized;
/// a failing update or finalization is a general error.
pub fn sign<B: VtokBackend>(session: &mut Session<B>, data: &[u8]) -> (r: Result<Vec<u8>, u64>)
    ensures
        old(session).spec_sign_ctx() is None ==> r == Err::<Vec<u8>, u64>(CKR_OPERATION_NOT_INITIALIZED),
        old(session).spec_sign_ctx() is Some ==> (r is Ok || r == Err::<Vec<u8>, u64>(CKR_GENERAL_ERROR)),
        old(session).spec_sign_ctx() matches Some(c) ==> (r matches Ok(sig) ==> sign_gives(c, data@, Ok(sig@))),
        old(session).spec_sign_ctx() matches Some(c) ==> (r is Err ==> exists|e: ApiError|
            sign_gives(c, data@, Err(e))),
        final(session).spec_sign_ctx() is None,
        final(session).spec_digest_ctx() == old(session).spec_digest_ctx(),
        final(session).spec_verify_ctx() == old(session).spec_verify_ctx(),
        same_session_state(*final(session), *old(session)),
{
    let mut ctx = match session.sign_ctx().take() {
        Some(ctx) => ctx,
        None => return Err(CKR_OPERATION_NOT_INITIALIZED),
    };
    let ghost start = ctx;
    let u = ctx.update(data);
    let ghost mid = ctx;
    match u {
        Ok(()) => {},
        Err(e) => {
            proof {
                assert(start.spec_update(data@, u, mid));
                assert(sign_gives(start, data@, Err::<Seq<u8>, ApiError>(e)));
            }
            return Err(CKR_GENERAL_ERROR);
        },
    }
    let f = ctx.finalize();
    proof {
        assert(start.spec_update(data@, u, mid));
        assert(mid.spec_finalize(bytes_of(f)));
        assert(sign_gives(start, data@, bytes_of(f)));
    }
    match f {
        Ok(s) => Ok(s),
        Err(_) => Err(CKR_GENERAL_ERROR),
    }
}

/// Adds `part` to the signing operation in progress, which goes on.
pub fn sign_update<B: VtokBackend>(session: &mut Session<B>, part: &[u8]) -> (rv: u64)
    ensures
        old(session).spec_sign_ctx() is None ==> rv == CKR_OPERATION_NOT_INITIALIZED,
        old(session).spec_sign_ctx() is Some ==> (rv == CKR_OK || rv == CKR_GENERAL_ERROR)
            && final(session).spec_sign_ctx() is Some,
        old(session).spec_sign_ctx() is None ==> final(session).spec_sign_ctx() is None,
        old(session).spec_sign_ctx() matches Some(c) ==> exists|u: core::result::Result<(), ApiError>|
            #[trigger] c.spec_update(part@, u, final(session).spec_sign_ctx().unwrap()) && (rv == CKR_OK <==> u is Ok),
        final(session).spec_digest_ctx() == old(session).spec_digest_ctx(),
        final(session).spec_verify_ctx() == old(session).spec_verify_ctx(),
        same_session_state(*final(session), *old(session)),
{
    match session.sign_ctx().take() {
        Some(mut ctx) => {
            let ghost start = ctx;
            let u = ctx.update(part);
            proof {
                assert(start.spec_update(part@, u, ctx));
            }
            let rv = match u {
                Ok(()) => CKR_OK,
                Err(_) => ck_rv_general(),
            };
            *session.sign_ctx() = Some(ctx);
            proof {
                assert(session.spec_sign_ctx().unwrap() == ctx);
                assert(start.spec_update(part@, u, session.spec_sign_ctx().unwrap()));
            }
            rv
        },
        None => Error::OperationNotInitialized.to_ck_rv(),
    }
}

/// The signature over the data added to the signing operation in progress,
/// which it ends.
pub fn sign_final<B: VtokBackend>(session: &mut Session<B>) -> (r: Result<Vec<u8>, u64>)
    ensures
        old(session).spec_sign_ctx() is None ==> r == Err::<Vec<u8>, u64>(CKR_OPERATION_NOT_INITIALIZED),
        old(session).spec_sign_ctx() is Some ==> (r is Ok || r == Err::<Vec<u8>, u64>(CKR_GENERAL_ERROR)),
        old(session).spec_sign_ctx() matches Some(c) ==> (r matches Ok(d) ==> c.spec_finalize(Ok(d@))),
        old(session).spec_sign_ctx() matches Some(c) ==> (r is Err ==> exists|e: ApiError| c.spec_finalize(Err(e))),
        final(session).spec_sign_ctx() is None,
        final(session).spec_digest_ctx() == old(session).spec_digest_ctx(),
        final(session).spec_verify_ctx() == old(session).spec_verify_ctx(),
        same_session_state(*final(session), *old(session)),
{
    let ctx = match session.sign_ctx().take() {
        Some(ctx) => ctx,
        None => return Err(CKR_OPERATION_NOT_INITIALIZED),
    };
    let ghost start = ctx;
    let f = ctx.finalize();
    proof {
        assert(start.spec_finalize(bytes_of(f)));
    }
    match f {
        Ok(s) => Ok(s),
        Err(_) => Err(CKR_GENERAL_ERROR),
    }
}

/// Starts a verification with the mechanism a raw code names and the key
/// behind `key_handle`, refused as a signing operation is.
pub fn verify_init<B: VtokBackend>(session: &mut Session<B>, raw_mech: u64, key_handle: ObjectHandle) -> (rv: u64)
    ensures
        ck_mech(raw_mech) is None ==> rv == CKR_MECHANISM_INVALID && *final(session) == *old(session),
        ck_mech(raw_mech) matches Some(m) ==> match init_refusal_rv(*old(session), m, key_handle) {
            Some(e) => rv == e,
            None => rv == CKR_OK || rv == ck_rv(Error::KeyHandleInvalid) || rv == CKR_GENERAL_ERROR,
        },
        rv == CKR_OK ==> final(session).spec_verify_ctx() is Some,
        rv == CKR_OK ==> (final(session).spec_verify_ctx() matches Some(c) && verify_started(
            *old(session),
            ck_mech(raw_mech).unwrap(),
            key_handle,
            c,
        )),
        ck_mech(raw_mech) matches Some(m) ==> (init_refusal_rv(*old(session), m, key_handle) is None && rv == ck_rv(
            Error::KeyHandleInvalid,
        ) ==> key_unloadable(*old(session), m, key_handle)),
        ck_mech(raw_mech) matches Some(m) ==> (rv == CKR_GENERAL_ERROR ==> verify_refused(*old(session), m, key_handle)),
        rv != CKR_OK ==> final(session).spec_verify_ctx() == old(session).spec_verify_ctx(),
        final(session).spec_digest_ctx() == old(session).spec_digest_ctx(),
        final(session).spec_sign_ctx() == old(session).spec_sign_ctx(),
        same_session_state(*final(session), *old(session)),
{
    let mech = match Mechanism::from_ckraw_mech(&raw_mech) {
        Some(m) => m,
        None => return CKR_MECHANISM_INVALID,
    };
    match session.verify_init(&mech, key_handle) {
        Ok(()) => CKR_OK,
        Err(e) => e.to_ck_rv(),
    }
}

/// Checks `signature` over `data` with the verification in progress, which
/// it ends: without one the operation was not initialized; a failing update
/// is a general error and a signature that does not verify is invalid.
pub fn verify<B: VtokBackend>(session: &mut Session<B>, data: &[u8], signature: &[u8]) -> (rv: u64)
    ensures
        old(session).spec_verify_ctx() is None ==> rv == CKR_OPERATION_NOT_INITIALIZED,
        old(session).spec_verify_ctx() is Some ==> (rv == CKR_OK || rv == CKR_GENERAL_ERROR || rv
            == CKR_SIGNATURE_INVALID),
        old(session).spec_verify_ctx() matches Some(c) ==> (rv == CKR_OK ==> verify_checks(c, data@, signature@, true)),
        old(session).spec_verify_ctx() matches Some(c) ==> (rv == CKR_SIGNATURE_INVALID ==> verify_checks(
            c,
            data@,
            signature@,
            false,
        )),
        old(session).spec_verify_ctx() matches Some(c) ==> (rv == CKR_GENERAL_ERROR ==> verify_update_fails(c, data@)),
        final(session).spec_verify_ctx() is None,
        final(session).spec_digest_ctx() == old(session).spec_digest_ctx(),
        final(session).spec_sign_ctx() == old(session).spec_sign_ctx(),
        same_session_state(*final(session), *old(session)),
{
    let mut ctx = match session.verify_ctx().take() {
        Some(ctx) => ctx,
        None => return CKR_OPERATION_NOT_INITIALIZED,
    };
    let ghost start = ctx;
    let u = ctx.update(data);
    let ghost mid = ctx;
    proof {
        assert(start.spec_update(data@, u, mid));
    }
    match u {
        Ok(()) => {},
        Err(_) => return CKR_GENERAL_ERROR,
    }
    let f = ctx.finalize(signature);
    proof {
        assert(mid.spec_finalize(signature@, f));
    }
    match f {
        Ok(()) => CKR_OK,
        Err(_) => CKR_SIGNATURE_INVALID,
    }
}

/// Adds `part` to the verification in progress, which goes on.
pub fn verify_update<B: VtokBackend>(session: &mut Session<B>, part: &[u8]) -> (rv: u64)
    ensures
        old(session).spec_verify_ctx() is None ==> rv == CKR_OPERATION_NOT_INITIALIZED,
        old(session).spec_verify_ctx() is Some ==> (rv == CKR_OK || rv == CKR_GENERAL_ERROR)
            && final(session).spec_verify_ctx() is Some,
        old(session).spec_verify_ctx() is None ==> final(session).spec_verify_ctx() is None,
        old(session).spec_verify_ctx() matches Some(c) ==> exists|u: core::result::Result<(), ApiError>|
            #[trigger] c.spec_update(part@, u, final(session).spec_verify_ctx().unwrap()) && (rv == CKR_OK <==> u is Ok),
        final(session).spec_digest_ctx() == old(session).spec_digest_ctx(),
        final(session).spec_sign_ctx() == old(session).spec_sign_ctx(),
        same_session_state(*final(session), *old(session)),
{
    match session.verify_ctx().take() {
        Some(mut ctx) => {
            let ghost start = ctx;
            let u = ctx.update(part);
            proof {
                assert(start.spec_update(part@, u, ctx));
            }
            let rv = match u {
                Ok(()) => CKR_OK,
                Err(_) => ck_rv_general(),
            };
            *session.verify_ctx() = Some(ctx);
            proof {
                assert(session.spec_verify_ctx().unwrap() == ctx);
                assert(start.spec_update(part@, u, session.spec_verify_ctx().unwrap()));
            }
            rv
        },
        None => Error::OperationNotInitialized.to_ck_rv(),
    }
}

/// Checks `signature` over the data added to the verification in progress,
/// which it ends.
pub fn verify_final<B: VtokBackend>(session: &mut Session<B>, signature: &[u8]) -> (rv: u64)
    ensures
        old(session).spec_verify_ctx() is None ==> rv == CKR_OPERATION_NOT_INITIALIZED,
        old(session).spec_verify_ctx() is Some ==> (rv == CKR_OK || rv == CKR_SIGNATURE_INVALID),
        old(session).spec_verify_ctx() matches Some(c) ==> exists|f: core::result::Result<(), ApiError>|
            #[trigger] c.spec_finalize(signature@, f) && (rv == CKR_OK <==> f is Ok),
        final(session).spec_verify_ctx() is None,
        final(session).spec_digest_ctx() == old(session).spec_digest_ctx(),
        final(session).spec_sign_ctx() == old(session).spec_sign_ctx(),
        same_session_state(*final(session), *old(session)),
{
    let ctx = match session.verify_ctx().take() {
        Some(ctx) => ctx,
        None => return CKR_OPERATION_NOT_INITIALIZED,
    };
    let ghost start = ctx;
    let f = ctx.finalize(signature);
    proof {
        assert(start.spec_finalize(signature@, f));
    }
    match f {
        Ok(()) => CKR_OK,
        Err(_) => CKR_SIGNATURE_INVALID,
    }
}

/// Decryption is not offered: an unknown mechanism is invalid, a known one
/// not supported.
pub fn decrypt_init<B: VtokBackend>(session: &mut Session<B>, raw_mech: u64, key_handle: ObjectHandle) -> (rv: u64)
    ensures
        ck_mech(raw_mech) is None ==> rv == CKR_MECHANISM_INVALID,
        ck_mech(raw_mech) is Some ==> rv == CKR_FUNCTION_NOT_SUPPORTED,
        *final(session) == *old(session),
{
    match Mechanism::from_ckraw_mech(&raw_mech) {
        Some(_) => CKR_FUNCTION_NOT_SUPPORTED,
        None => CKR_MECHANISM_INVALID,
    }
}

/// Decryption is not offered.
pub fn decrypt<B: VtokBackend>(session: &mut Session<B>, encrypted: &[u8]) -> (rv: u64)
    ensures
        rv == CKR_FUNCTION_NOT_SUPPORTED,
        *final(session) == *old(session),
{
    CKR_FUNCTION_NOT_SUPPORTED
}

} // verus!
