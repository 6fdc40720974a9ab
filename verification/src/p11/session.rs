//! A PKCS#11 session: its login state, its view of the token's objects, the
//! object enumeration in progress and the backend operations it runs.

use vstd::prelude::*;
use crate::p11::api::{Error as ApiError, Mechanism, VtokBackend};
use crate::p11::ck::{
    Error, Result, CKR_GENERAL_ERROR, CKR_MECHANISM_INVALID, CKR_OK, CKR_OPERATION_NOT_INITIALIZED,
    CKS_RO_PUBLIC_SESSION, CKS_RO_USER_FUNCTIONS,
};
use crate::p11::db::{Db, Object, ObjectHandle, ObjectKind, kind_is_private};

verus! {

/// The `CKF_SERIAL_SESSION` session flag.
pub const CKF_SERIAL_SESSION: u64 = 0x0004;

/// Where the next chunk of an enumeration ends.
pub open spec fn chunk_end(index: nat, count: nat, len: nat) -> nat {
    if index + count < len { index + count } else { len }
}

/// An object enumeration: the handles found and how many were handed out.
pub struct EnumCtx {
    handles: Vec<ObjectHandle>,
    index: usize,
}

impl EnumCtx {
    /// The handles found.
    pub closed spec fn spec_handles(&self) -> Seq<ObjectHandle> {
        self.handles@
    }

    /// How many handles were handed out.
    pub closed spec fn spec_index(&self) -> nat {
        self.index as nat
    }

    /// An enumeration is never past its end.
    #[verifier::type_invariant]
    closed spec fn wf(&self) -> bool {
        self.index <= self.handles@.len()
    }

    /// An enumeration of `handles`, none handed out yet.
    pub fn new(handles: Vec<ObjectHandle>) -> (r: EnumCtx)
        ensures
            r.spec_handles() == handles@,
            r.spec_index() == 0,
    {
        EnumCtx { handles, index: 0 }
    }

    /// Hands out the next (at most) `count` handles.
    pub fn next_chunk(&mut self, count: usize) -> (r: Vec<ObjectHandle>)
        ensures
            final(self).spec_handles() == old(self).spec_handles(),
            final(self).spec_index() == chunk_end(
                old(self).spec_index(),
                count as nat,
                old(self).spec_handles().len(),
            ),
            r@ == old(self).spec_handles().subrange(
                old(self).spec_index() as int,
                final(self).spec_index() as int,
            ),
            final(self).spec_index() <= final(self).spec_handles().len(),
    {
        proof {
            use_type_invariant(&*self);
        }
        let len = self.handles.len();
        let end: usize = if count < len - self.index { self.index + count } else { len };
        let mut out: Vec<ObjectHandle> = Vec::new();
        let mut i: usize = self.index;
        while i < end
            invariant
                self.index <= i <= end <= self.handles@.len(),
                out@ == self.handles@.subrange(self.index as int, i as int),
            decreases end - i,
        {
            out.push(self.handles[i]);
            i = i + 1;
            proof {
                assert(out@ =~= self.handles@.subrange(self.index as int, i as int));
            }
        }
        self.index = end;
        out
    }
}

/// Two chunks handed out one after the other are the consecutive stretch of
/// the handles that starts where the first began: an enumeration neither
/// skips nor repeats a handle.
pub proof fn lemma_chunks_consecutive(handles: Seq<ObjectHandle>, index: nat, c1: nat, c2: nat)
    requires
        index <= handles.len(),
    ensures
        ({
            let mid = chunk_end(index, c1, handles.len());
            let end = chunk_end(mid, c2, handles.len());
            handles.subrange(index as int, mid as int) + handles.subrange(mid as int, end as int)
                =~= handles.subrange(index as int, end as int)
        }),
{
}

/// The login state of a session.
#[derive(Clone, Copy, Debug, PartialEq, Eq, Structural)]
pub enum SessionState {
    /// Read-only, not logged in.
    RoPublic,
    /// Read-only, user logged in.
    RoUser,
}

/// The `CK_STATE` of each session state.
pub open spec fn ck_state(s: SessionState) -> u64 {
    match s {
        SessionState::RoPublic => CKS_RO_PUBLIC_SESSION,
        SessionState::RoUser => CKS_RO_USER_FUNCTIONS,
    }
}

impl SessionState {
    /// The `CK_STATE` of the state.
    pub fn to_ck_state(&self) -> (r: u64)
        ensures
            r == ck_state(*self),
    {
        match self {
            SessionState::RoPublic => CKS_RO_PUBLIC_SESSION,
            SessionState::RoUser => CKS_RO_USER_FUNCTIONS,
        }
    }
}

/// The `CK_SESSION_INFO` of a session.
#[derive(Clone, Copy, Debug, PartialEq, Eq, Structural)]
pub struct SessionInfo {
    pub slot_id: u64,
    pub state: u64,
    pub flags: u64,
    pub device_error: u64,
}

/// Whether an enumeration lists an object: private objects only once the
/// user is logged in, mechanism objects never (there is no template
/// search that could ask for them).
pub open spec fn listed(o: Object, logged_in: bool) -> bool {
    (logged_in || !kind_is_private(o.spec_kind())) && !(o.spec_kind() is Mechanism)
}

/// The handles of the listed objects among `objs`, in order.
pub open spec fn listed_handles(objs: Seq<Object>, logged_in: bool) -> Seq<ObjectHandle>
    decreases objs.len(),
{
    if objs.len() == 0 {
        Seq::empty()
    } else {
        let rest = listed_handles(objs.drop_last(), logged_in);
        if listed(objs.last(), logged_in) {
            rest.push(ObjectHandle((objs.len() - 1) as usize))
        } else {
            rest
        }
    }
}

/// The key PEM that a mechanism may use from a key object: RSA mechanisms
/// take RSA keys, ECDSA takes EC keys, public or private.
pub open spec fn mech_key_pem(mech: Mechanism, kind: ObjectKind) -> Option<Seq<char>> {
    match (mech, kind) {
        (Mechanism::RsaX509, ObjectKind::RsaPrivateKey(p)) => Some(p@),
        (Mechanism::RsaPkcs(_), ObjectKind::RsaPrivateKey(p)) => Some(p@),
        (Mechanism::RsaPkcsPss(_, _), ObjectKind::RsaPrivateKey(p)) => Some(p@),
        (Mechanism::RsaX509, ObjectKind::RsaPublicKey(p)) => Some(p@),
        (Mechanism::RsaPkcs(_), ObjectKind::RsaPublicKey(p)) => Some(p@),
        (Mechanism::RsaPkcsPss(_, _), ObjectKind::RsaPublicKey(p)) => Some(p@),
        (Mechanism::Ecdsa(_), ObjectKind::EcPrivateKey(p)) => Some(p@),
        (Mechanism::Ecdsa(_), ObjectKind::EcPublicKey(p)) => Some(p@),
        _ => None,
    }
}

/// A session on a token: its login state, the token's objects, the object
/// enumeration in progress and the operation contexts of the backend `B`.
pub struct Session<B: VtokBackend> {
    slot_id: u64,
    state: SessionState,
    db: Db,
    enum_ctx: Option<EnumCtx>,
    digest_ctx: Option<B::DigestCtx>,
    sign_ctx: Option<B::SignCtx>,
    verify_ctx: Option<B::VerifyCtx>,
    backend: B,
}

/// Whether the backend may load the key `pem` as `r`.
pub open spec fn loads_key<B: VtokBackend>(backend: B, pem: Seq<char>, r: core::result::Result<B::BackendKey, ApiError>) -> bool {
    exists|s: &str| s@ == pem && #[trigger] call_ensures(B::load_private_key, (&backend, s), r)
}

/// Whether the backend may answer a request for a digest operation with
/// `mech` with `r`.
pub open spec fn backend_digest_gives<B: VtokBackend>(
    backend: B,
    mech: Mechanism,
    r: core::result::Result<B::DigestCtx, ApiError>,
) -> bool {
    call_ensures(B::digest_init, (&backend, &mech), r)
}

/// Whether a signing started with `mech` on the key behind `key_handle` may
/// be the operation `c`: the backend loads the key from the object's PEM and
/// gives `c` for that key and `mech`.
pub open spec fn sign_started<B: VtokBackend>(s: Session<B>, mech: Mechanism, key_handle: ObjectHandle, c: B::SignCtx) -> bool {
    exists|key: B::BackendKey|
        #[trigger] loads_key(s.spec_backend(), s.spec_key_pem(mech, key_handle), Ok(key)) && call_ensures(
            B::sign_init,
            (&s.spec_backend(), &mech, &key),
            Ok::<B::SignCtx, ApiError>(c),
        )
}

/// Whether the backend may refuse a signing with `mech` on the key it loads
/// from the object behind `key_handle`.
pub open spec fn sign_refused<B: VtokBackend>(s: Session<B>, mech: Mechanism, key_handle: ObjectHandle) -> bool {
    exists|key: B::BackendKey, e: ApiError|
        loads_key(s.spec_backend(), s.spec_key_pem(mech, key_handle), Ok(key)) && #[trigger] call_ensures(
            B::sign_init,
            (&s.spec_backend(), &mech, &key),
            Err::<B::SignCtx, ApiError>(e),
        )
}

/// Whether a verification started with `mech` on the key behind
/// `key_handle` may be the operation `c`.
pub open spec fn verify_started<B: VtokBackend>(
    s: Session<B>,
    mech: Mechanism,
    key_handle: ObjectHandle,
    c: B::VerifyCtx,
) -> bool {
    exists|key: B::BackendKey|
        #[trigger] loads_key(s.spec_backend(), s.spec_key_pem(mech, key_handle), Ok(key)) && call_ensures(
            B::verify_init,
            (&s.spec_backend(), &mech, &key),
            Ok::<B::VerifyCtx, ApiError>(c),
        )
}

/// Whether the backend may refuse a verification with `mech` on the key it
/// loads from the object behind `key_handle`.
pub open spec fn verify_refused<B: VtokBackend>(s: Session<B>, mech: Mechanism, key_handle: ObjectHandle) -> bool {
    exists|key: B::BackendKey, e: ApiError|
        loads_key(s.spec_backend(), s.spec_key_pem(mech, key_handle), Ok(key)) && #[trigger] call_ensures(
            B::verify_init,
            (&s.spec_backend(), &mech, &key),
            Err::<B::VerifyCtx, ApiError>(e),
        )
}

/// Whether the backend may fail to load the key that `mech` is to use from
/// the object behind `key_handle`.
pub open spec fn key_unloadable<B: VtokBackend>(s: Session<B>, mech: Mechanism, key_handle: ObjectHandle) -> bool {
    exists|e: ApiError| loads_key(s.spec_backend(), s.spec_key_pem(mech, key_handle), Err(e))
}

impl<B: VtokBackend> Session<B> {
    /// The session's slot.
    pub closed spec fn spec_slot_id(&self) -> u64 {
        self.slot_id
    }

    /// The session's login state.
    pub closed spec fn spec_state(&self) -> SessionState {
        self.state
    }

    /// The objects the session sees.
    pub closed spec fn spec_objects(&self) -> Seq<Object> {
        self.db.spec_objects()
    }

    /// The enumeration in progress, if any: its handles and how many were
    /// handed out.
    pub closed spec fn spec_enum(&self) -> Option<(Seq<ObjectHandle>, nat)> {
        match self.enum_ctx {
            Some(e) => Some((e.spec_handles(), e.spec_index())),
            None => None,
        }
    }

    /// Whether the user is logged in.
    pub open spec fn spec_logged_in(&self) -> bool {
        self.spec_state() == SessionState::RoUser
    }

    /// The digest operation in progress, if any.
    pub closed spec fn spec_digest_ctx(&self) -> Option<B::DigestCtx> {
        self.digest_ctx
    }

    /// The signing operation in progress, if any.
    pub closed spec fn spec_sign_ctx(&self) -> Option<B::SignCtx> {
        self.sign_ctx
    }

    /// The verification operation in progress, if any.
    pub closed spec fn spec_verify_ctx(&self) -> Option<B::VerifyCtx> {
        self.verify_ctx
    }

    /// The backend the session runs its operations on.
    pub closed spec fn spec_backend(&self) -> B {
        self.backend
    }

    /// The PEM of the key that `mech` is to use from the object behind
    /// `key_handle` (meaningful where the object exists and fits `mech`).
    pub open spec fn spec_key_pem(&self, mech: Mechanism, key_handle: ObjectHandle) -> Seq<char> {
        mech_key_pem(mech, self.spec_objects()[key_handle.0 as int].spec_kind()).unwrap()
    }

    /// A session on `slot_id` over `db`, in `state`, on `backend`, with no
    /// enumeration and no operation in progress.
    pub fn new(slot_id: u64, db: Db, state: SessionState, backend: B) -> (r: Self)
        ensures
            r.spec_slot_id() == slot_id,
            r.spec_state() == state,
            r.spec_objects() == db.spec_objects(),
            r.spec_enum() is None,
            r.spec_digest_ctx() is None,
            r.spec_sign_ctx() is None,
            r.spec_verify_ctx() is None,
            r.spec_backend() == backend,
    {
        Session {
            slot_id,
            state,
            db,
            enum_ctx: None,
            digest_ctx: None,
            sign_ctx: None,
            verify_ctx: None,
            backend,
        }
    }

    /// The session's `CK_SESSION_INFO`.
    pub fn ck_info(&self) -> (r: SessionInfo)
        ensures
            r == (SessionInfo {
                slot_id: self.spec_slot_id(),
                state: ck_state(self.spec_state()),
                flags: CKF_SERIAL_SESSION,
                device_error: CKR_OK,
            }),
    {
        SessionInfo {
            slot_id: self.slot_id,
            state: self.state.to_ck_state(),
            flags: CKF_SERIAL_SESSION,
            device_error: CKR_OK,
        }
    }

    /// The login state.
    pub fn state(&self) -> (r: SessionState)
        ensures
            r == self.spec_state(),
    {
        self.state
    }

    /// Sets the login state.
    pub fn set_state(&mut self, state: SessionState)
        ensures
            final(self).spec_state() == state,
            final(self).spec_slot_id() == old(self).spec_slot_id(),
            final(self).spec_objects() == old(self).spec_objects(),
            final(self).spec_enum() == old(self).spec_enum(),
    {
        self.state = state;
    }

    /// The object behind `handle`, if there is one.
    pub fn object(&self, handle: ObjectHandle) -> (r: Option<&Object>)
        ensures
            handle.0 < self.spec_objects().len() ==> (r matches Some(o) && *o == self.spec_objects()[handle.0 as int]),
            handle.0 >= self.spec_objects().len() ==> r is None,
    {
        self.db.object(handle)
    }

    /// Starts an enumeration of the objects the session may list: private
    /// objects only once the user is logged in, mechanism objects never.
    /// Search by attribute template is not provided: every object the
    /// session may list is listed, and mechanism objects, which only a
    /// template could ask for, are not.
    pub fn enum_init(&mut self)
        ensures
            final(self).spec_enum() == Some((listed_handles(old(self).spec_objects(), old(self).spec_logged_in()), 0nat)),
            final(self).spec_state() == old(self).spec_state(),
            final(self).spec_slot_id() == old(self).spec_slot_id(),
            final(self).spec_objects() == old(self).spec_objects(),
    {
        let enable_private = self.check_user_logged_in().is_ok();
        let objects = self.db.enumerate();
        let ghost objs = self.db.spec_objects();
        let mut handles: Vec<ObjectHandle> = Vec::new();
        let mut i: usize = 0;
        while i < objects.len()
            invariant
                objects@.len() == objs.len(),
                forall|j: int|
                    0 <= j < objects@.len() ==> (#[trigger] objects@[j]).0 == ObjectHandle(j as usize)
                        && *objects@[j].1 == objs[j],
                i <= objs.len(),
                handles@ == listed_handles(objs.take(i as int), enable_private),
            decreases objs.len() - i,
        {
            let (h, o) = objects[i];
            proof {
                assert(objs.take(i as int + 1).drop_last() =~= objs.take(i as int));
            }
            let pass = (enable_private || !o.is_private()) && !o.is_mechanism();
            if pass {
                handles.push(h);
            }
            i = i + 1;
        }
        proof {
            assert(objs.take(objs.len() as int) =~= objs);
        }
        self.enum_ctx = Some(EnumCtx::new(handles));
    }

    /// Hands out the next (at most) `count` handles of the enumeration in
    /// progress; `None` when there is none.
    pub fn enum_next_chunk(&mut self, count: usize) -> (r: Option<Vec<ObjectHandle>>)
        ensures
            match old(self).spec_enum() {
                None => r is None && final(self).spec_enum() is None,
                Some((hs, idx)) => {
                    let end = chunk_end(idx, count as nat, hs.len());
                    &&& r matches Some(v) && v@ == hs.subrange(idx as int, end as int)
                    &&& final(self).spec_enum() == Some((hs, end))
                },
            },
            final(self).spec_state() == old(self).spec_state(),
            final(self).spec_slot_id() == old(self).spec_slot_id(),
            final(self).spec_objects() == old(self).spec_objects(),
    {
        match self.enum_ctx.take() {
            None => None,
            Some(mut ctx) => {
                let chunk = ctx.next_chunk(count);
                self.enum_ctx = Some(ctx);
                Some(chunk)
            },
        }
    }

    /// Whether an enumeration is in progress.
    pub fn enum_active(&self) -> (r: bool)
        ensures
            r == (self.spec_enum() is Some),
    {
        self.enum_ctx.is_some()
    }

    /// Ends the enumeration in progress; without one, the operation was not
    /// initialized.
    pub fn enum_finalize(&mut self) -> (r: Result<()>)
        ensures
            old(self).spec_enum() is Some ==> r is Ok,
            old(self).spec_enum() is None ==> r == Err::<(), Error>(Error::CkError(CKR_OPERATION_NOT_INITIALIZED)),
            final(self).spec_enum() is None,
            final(self).spec_state() == old(self).spec_state(),
            final(self).spec_slot_id() == old(self).spec_slot_id(),
            final(self).spec_objects() == old(self).spec_objects(),
    {
        match self.enum_ctx.take() {
            Some(_) => Ok(()),
            None => Err(Error::CkError(CKR_OPERATION_NOT_INITIALIZED)),
        }
    }

    /// Succeeds only once the user is logged in.
    pub fn check_user_logged_in(&self) -> (r: Result<()>)
        ensures
            self.spec_logged_in() ==> r is Ok,
            !self.spec_logged_in() ==> r == Err::<(), Error>(Error::UserNotLoggedIn),
    {
        match self.state {
            SessionState::RoUser => Ok(()),
            _ => Err(Error::UserNotLoggedIn),
        }
    }

    /// The PEM of the key that `mech` is to use from the object behind
    /// `key_handle`: refused for a missing object and for a key of another
    /// type.
    pub fn key_pem_for_mech(&self, mech: &Mechanism, key_handle: ObjectHandle) -> (r: Result<&str>)
        ensures
            key_handle.0 >= self.spec_objects().len() ==> r == Err::<&str, Error>(Error::KeyHandleInvalid),
            key_handle.0 < self.spec_objects().len() ==> match mech_key_pem(
                *mech,
                self.spec_objects()[key_handle.0 as int].spec_kind(),
            ) {
                Some(p) => r matches Ok(s) && s@ == p,
                None => r == Err::<&str, Error>(Error::KeyTypeInconsistent),
            },
    {
        let key_obj = match self.db.object(key_handle) {
            Some(o) => o,
            None => return Err(Error::KeyHandleInvalid),
        };
        match (mech, key_obj.kind()) {
            (Mechanism::RsaX509, ObjectKind::RsaPrivateKey(pem))
            | (Mechanism::RsaPkcs(_), ObjectKind::RsaPrivateKey(pem))
            | (Mechanism::RsaPkcsPss(_, _), ObjectKind::RsaPrivateKey(pem))
            | (Mechanism::RsaX509, ObjectKind::RsaPublicKey(pem))
            | (Mechanism::RsaPkcs(_), ObjectKind::RsaPublicKey(pem))
            | (Mechanism::RsaPkcsPss(_, _), ObjectKind::RsaPublicKey(pem))
            | (Mechanism::Ecdsa(_), ObjectKind::EcPrivateKey(pem))
            | (Mechanism::Ecdsa(_), ObjectKind::EcPublicKey(pem)) => Ok(pem.as_str()),
            _ => Err(Error::KeyTypeInconsistent),
        }
    }

    /// Starts a digest operation with `mech`; a mechanism the backend refuses
    /// is invalid, and leaves any digest in progress as it was.
    pub fn digest_init(&mut self, mech: &Mechanism) -> (r: Result<()>)
        ensures
            r is Ok ==> (final(self).spec_digest_ctx() matches Some(c) && backend_digest_gives(
                old(self).spec_backend(),
                *mech,
                Ok(c),
            )),
            r is Err ==> exists|e: ApiError| backend_digest_gives(old(self).spec_backend(), *mech, Err(e)),
            final(self).spec_backend() == old(self).spec_backend(),
            r is Err ==> r == Err::<(), Error>(Error::CkError(CKR_MECHANISM_INVALID))
                && final(self).spec_digest_ctx() == old(self).spec_digest_ctx(),
            final(self).spec_sign_ctx() == old(self).spec_sign_ctx(),
            final(self).spec_verify_ctx() == old(self).spec_verify_ctx(),
            final(self).spec_state() == old(self).spec_state(),
            final(self).spec_enum() == old(self).spec_enum(),
            final(self).spec_objects() == old(self).spec_objects(),
            final(self).spec_slot_id() == old(self).spec_slot_id(),
    {
        let started = self.backend.digest_init(mech);
        proof {
            assert(backend_digest_gives(self.backend, *mech, started));
        }
        match started {
            Ok(ctx) => {
                self.digest_ctx = Some(ctx);
                Ok(())
            },
            Err(e) => {
                proof {
                    assert(backend_digest_gives(self.spec_backend(), *mech, Err::<B::DigestCtx, ApiError>(e)));
                }
                Err(Error::CkError(CKR_MECHANISM_INVALID))
            },
        }
    }

    /// The digest operation slot, for the caller to drive or clear.
    pub fn digest_ctx(&mut self) -> (r: &mut Option<B::DigestCtx>)
        ensures
            final(self).spec_backend() == old(self).spec_backend(),
            *r == old(self).spec_digest_ctx(),
            final(self).spec_digest_ctx() == *final(r),
            final(self).spec_sign_ctx() == old(self).spec_sign_ctx(),
            final(self).spec_verify_ctx() == old(self).spec_verify_ctx(),
            final(self).spec_state() == old(self).spec_state(),
            final(self).spec_enum() == old(self).spec_enum(),
            final(self).spec_objects() == old(self).spec_objects(),
            final(self).spec_slot_id() == old(self).spec_slot_id(),
    {
        &mut self.digest_ctx
    }

    /// The key that `mech` is to use from the object behind `key_handle`,
    /// loaded by the backend: a missing object or one the backend cannot
    /// load is an invalid handle, a key of another type inconsistent.
    fn key_for_mech(&self, mech: &Mechanism, key_handle: ObjectHandle) -> (r: Result<B::BackendKey>)
        ensures
            key_handle.0 >= self.spec_objects().len() ==> r == Err::<B::BackendKey, Error>(Error::KeyHandleInvalid),
            key_handle.0 < self.spec_objects().len() && mech_key_pem(
                *mech,
                self.spec_objects()[key_handle.0 as int].spec_kind(),
            ) is None ==> r == Err::<B::BackendKey, Error>(Error::KeyTypeInconsistent),
            key_handle.0 < self.spec_objects().len() && mech_key_pem(
                *mech,
                self.spec_objects()[key_handle.0 as int].spec_kind(),
            ) is Some ==> (r is Ok || r == Err::<B::BackendKey, Error>(Error::KeyHandleInvalid)),
            r is Err ==> r == Err::<B::BackendKey, Error>(Error::KeyHandleInvalid) || r == Err::<B::BackendKey, Error>(
                Error::KeyTypeInconsistent,
            ),
            r is Ok ==> key_handle.0 < self.spec_objects().len() && mech_key_pem(
                *mech,
                self.spec_objects()[key_handle.0 as int].spec_kind(),
            ) is Some,
            r matches Ok(k) ==> loads_key(self.spec_backend(), self.spec_key_pem(*mech, key_handle), Ok(k)),
            r == Err::<B::BackendKey, Error>(Error::KeyHandleInvalid) && key_handle.0 < self.spec_objects().len()
                ==> exists|e: ApiError| loads_key(self.spec_backend(), self.spec_key_pem(*mech, key_handle), Err(e)),
    {
        let pem = match self.key_pem_for_mech(mech, key_handle) {
            Ok(p) => p,
            Err(e) => return Err(e),
        };
        let loaded = self.backend.load_private_key(pem);
        proof {
            assert(call_ensures(B::load_private_key, (&self.backend, pem), loaded));
        }
        match loaded {
            Ok(k) => Ok(k),
            Err(e) => {
                proof {
                    assert(loads_key(self.spec_backend(), self.spec_key_pem(*mech, key_handle), Err::<B::BackendKey, ApiError>(e)));
                }
                Err(Error::KeyHandleInvalid)
            },
        }
    }

    /// Starts a signing operation with `mech` and the key behind
    /// `key_handle`: refused before login, for a missing or unloadable key
    /// (invalid handle), for a key of another type (inconsistent), and as a
    /// general error when the backend refuses the operation. A refusal
    /// leaves any signing in progress as it was.
    pub fn sign_init(&mut self, mech: &Mechanism, key_handle: ObjectHandle) -> (r: Result<()>)
        ensures
            !old(self).spec_logged_in() ==> r == Err::<(), Error>(Error::UserNotLoggedIn),
            old(self).spec_logged_in() && key_handle.0 >= old(self).spec_objects().len() ==> r == Err::<(), Error>(
                Error::KeyHandleInvalid,
            ),
            old(self).spec_logged_in() && key_handle.0 < old(self).spec_objects().len() && mech_key_pem(
                *mech,
                old(self).spec_objects()[key_handle.0 as int].spec_kind(),
            ) is None ==> r == Err::<(), Error>(Error::KeyTypeInconsistent),
            old(self).spec_logged_in() && key_handle.0 < old(self).spec_objects().len() && mech_key_pem(
                *mech,
                old(self).spec_objects()[key_handle.0 as int].spec_kind(),
            ) is Some ==> (r is Ok || r == Err::<(), Error>(Error::KeyHandleInvalid) || r == Err::<(), Error>(
                Error::CkError(CKR_GENERAL_ERROR),
            )),
            r is Err ==> (r == Err::<(), Error>(Error::UserNotLoggedIn) || r == Err::<(), Error>(Error::KeyHandleInvalid)
                || r == Err::<(), Error>(Error::KeyTypeInconsistent) || r == Err::<(), Error>(
                Error::CkError(CKR_GENERAL_ERROR),
            )) && final(self).spec_sign_ctx() == old(self).spec_sign_ctx(),
            r is Ok ==> old(self).spec_logged_in() && final(self).spec_sign_ctx() is Some,
            r is Ok ==> (final(self).spec_sign_ctx() matches Some(c) && sign_started(*old(self), *mech, key_handle, c)),
            r == Err::<(), Error>(Error::KeyHandleInvalid) && old(self).spec_logged_in() && key_handle.0 < old(
                self,
            ).spec_objects().len() ==> key_unloadable(*old(self), *mech, key_handle),
            r == Err::<(), Error>(Error::CkError(CKR_GENERAL_ERROR)) ==> sign_refused(*old(self), *mech, key_handle),
            final(self).spec_backend() == old(self).spec_backend(),
            final(self).spec_digest_ctx() == old(self).spec_digest_ctx(),
            final(self).spec_verify_ctx() == old(self).spec_verify_ctx(),
            final(self).spec_state() == old(self).spec_state(),
            final(self).spec_enum() == old(self).spec_enum(),
            final(self).spec_objects() == old(self).spec_objects(),
            final(self).spec_slot_id() == old(self).spec_slot_id(),
    {
        match self.check_user_logged_in() {
            Ok(()) => {},
            Err(e) => return Err(e),
        }
        let key = match self.key_for_mech(mech, key_handle) {
            Ok(k) => k,
            Err(e) => return Err(e),
        };
        let started = self.backend.sign_init(mech, &key);
        proof {
            assert(call_ensures(B::sign_init, (&self.backend, mech, &key), started));
            assert(loads_key(self.backend, self.spec_key_pem(*mech, key_handle), Ok::<B::BackendKey, ApiError>(key)));
        }
        match started {
            Ok(ctx) => {
                self.sign_ctx = Some(ctx);
                Ok(())
            },
            Err(e) => {
                proof {
                    assert(call_ensures(B::sign_init, (&self.backend, mech, &key), Err::<B::SignCtx, ApiError>(e)));
                }
                Err(Error::CkError(CKR_GENERAL_ERROR))
            },
        }
    }

    /// The signing operation slot, for the caller to drive or clear.
    pub fn sign_ctx(&mut self) -> (r: &mut Option<B::SignCtx>)
        ensures
            final(self).spec_backend() == old(self).spec_backend(),
            *r == old(self).spec_sign_ctx(),
            final(self).spec_sign_ctx() == *final(r),
            final(self).spec_digest_ctx() == old(self).spec_digest_ctx(),
            final(self).spec_verify_ctx() == old(self).spec_verify_ctx(),
            final(self).spec_state() == old(self).spec_state(),
            final(self).spec_enum() == old(self).spec_enum(),
            final(self).spec_objects() == old(self).spec_objects(),
            final(self).spec_slot_id() == old(self).spec_slot_id(),
    {
        &mut self.sign_ctx
    }

    /// Starts a verification with `mech` and the key behind `key_handle`,
    /// refused as a signing operation is.
    pub fn verify_init(&mut self, mech: &Mechanism, key_handle: ObjectHandle) -> (r: Result<()>)
        ensures
            !old(self).spec_logged_in() ==> r == Err::<(), Error>(Error::UserNotLoggedIn),
            old(self).spec_logged_in() && key_handle.0 >= old(self).spec_objects().len() ==> r == Err::<(), Error>(
                Error::KeyHandleInvalid,
            ),
            old(self).spec_logged_in() && key_handle.0 < old(self).spec_objects().len() && mech_key_pem(
                *mech,
                old(self).spec_objects()[key_handle.0 as int].spec_kind(),
            ) is None ==> r == Err::<(), Error>(Error::KeyTypeInconsistent),
            old(self).spec_logged_in() && key_handle.0 < old(self).spec_objects().len() && mech_key_pem(
                *mech,
                old(self).spec_objects()[key_handle.0 as int].spec_kind(),
            ) is Some ==> (r is Ok || r == Err::<(), Error>(Error::KeyHandleInvalid) || r == Err::<(), Error>(
                Error::CkError(CKR_GENERAL_ERROR),
            )),
            r is Err ==> (r == Err::<(), Error>(Error::UserNotLoggedIn) || r == Err::<(), Error>(Error::KeyHandleInvalid)
                || r == Err::<(), Error>(Error::KeyTypeInconsistent) || r == Err::<(), Error>(
                Error::CkError(CKR_GENERAL_ERROR),
            )) && final(self).spec_verify_ctx() == old(self).spec_verify_ctx(),
            r is Ok ==> old(self).spec_logged_in() && final(self).spec_verify_ctx() is Some,
            r is Ok ==> (final(self).spec_verify_ctx() matches Some(c) && verify_started(*old(self), *mech, key_handle, c)),
            r == Err::<(), Error>(Error::KeyHandleInvalid) && old(self).spec_logged_in() && key_handle.0 < old(
                self,
            ).spec_objects().len() ==> key_unloadable(*old(self), *mech, key_handle),
            r == Err::<(), Error>(Error::CkError(CKR_GENERAL_ERROR)) ==> verify_refused(*old(self), *mech, key_handle),
            final(self).spec_backend() == old(self).spec_backend(),
            final(self).spec_digest_ctx() == old(self).spec_digest_ctx(),
            final(self).spec_sign_ctx() == old(self).spec_sign_ctx(),
            final(self).spec_state() == old(self).spec_state(),
            final(self).spec_enum() == old(self).spec_enum(),
            final(self).spec_objects() == old(self).spec_objects(),
            final(self).spec_slot_id() == old(self).spec_slot_id(),
    {
        match self.check_user_logged_in() {
            Ok(()) => {},
            Err(e) => return Err(e),
        }
        let key = match self.key_for_mech(mech, key_handle) {
            Ok(k) => k,
            Err(e) => return Err(e),
        };
        let started = self.backend.verify_init(mech, &key);
        proof {
            assert(call_ensures(B::verify_init, (&self.backend, mech, &key), started));
            assert(loads_key(self.backend, self.spec_key_pem(*mech, key_handle), Ok::<B::BackendKey, ApiError>(key)));
        }
        match started {
            Ok(ctx) => {
                self.verify_ctx = Some(ctx);
                Ok(())
            },
            Err(e) => {
                proof {
                    assert(call_ensures(B::verify_init, (&self.backend, mech, &key), Err::<B::VerifyCtx, ApiError>(e)));
                }
                Err(Error::CkError(CKR_GENERAL_ERROR))
            },
        }
    }

    /// The verification operation slot, for the caller to drive or clear.
    pub fn verify_ctx(&mut self) -> (r: &mut Option<B::VerifyCtx>)
        ensures
            final(self).spec_backend() == old(self).spec_backend(),
            *r == old(self).spec_verify_ctx(),
            final(self).spec_verify_ctx() == *final(r),
            final(self).spec_digest_ctx() == old(self).spec_digest_ctx(),
            final(self).spec_sign_ctx() == old(self).spec_sign_ctx(),
            final(self).spec_state() == old(self).spec_state(),
            final(self).spec_enum() == old(self).spec_enum(),
            final(self).spec_objects() == old(self).spec_objects(),
            final(self).spec_slot_id() == old(self).spec_slot_id(),
    {
        &mut self.verify_ctx
    }
}

} // verus!
