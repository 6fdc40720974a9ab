//! Operation contexts of the bridge: digest, sign and verify operations with
//! the state machine that keeps an application from mixing single-part and
//! multi-part calls.

use vstd::prelude::*;
use crate::p11::api::Mechanism;
use crate::p11::bridge::key::BridgeKey;
use crate::p11::ck::{CKM_SHA224, CKM_SHA256, CKM_SHA384, CKM_SHA512, CKM_SHA_1};
use crate::text::{decimal, u64_to_decimal};
use crate::types::error::{BackendError, BackendResult};
use crate::types::mechanism::{DigestAlgorithm, digest_len};

verus! {

/// The state of an operation context.
#[derive(Clone, Copy, Debug, PartialEq, Eq, Structural)]
pub enum OpCtxState {
    Initialized,
    SinglepartActive,
    MultipartActive,
    MultipartReady,
}

/// The transitions an operation context may take: from `Initialized` into
/// either kind of operation, and from an active multi-part operation to
/// ready.
pub open spec fn op_transition(from: OpCtxState, to: OpCtxState) -> bool {
    ||| from == OpCtxState::Initialized && to == OpCtxState::SinglepartActive
    ||| from == OpCtxState::Initialized && to == OpCtxState::MultipartActive
    ||| from == OpCtxState::MultipartActive && to == OpCtxState::MultipartReady
}

/// How far along an operation a state is.
pub open spec fn op_rank(s: OpCtxState) -> nat {
    match s {
        OpCtxState::Initialized => 0,
        OpCtxState::SinglepartActive => 1,
        OpCtxState::MultipartActive => 1,
        OpCtxState::MultipartReady => 2,
    }
}

/// The name of a state, as `{:?}` writes it.
pub open spec fn op_state_name(s: OpCtxState) -> Seq<char> {
    match s {
        OpCtxState::Initialized => "Initialized"@,
        OpCtxState::SinglepartActive => "SinglepartActive"@,
        OpCtxState::MultipartActive => "MultipartActive"@,
        OpCtxState::MultipartReady => "MultipartReady"@,
    }
}

/// Every allowed transition moves an operation forward: no state is ever
/// entered again, and a single-part operation never turns multi-part or
/// back.
pub proof fn lemma_op_transitions_advance(from: OpCtxState, to: OpCtxState)
    ensures
        op_transition(from, to) ==> op_rank(from) < op_rank(to),
        op_transition(from, to) ==> from != to,
        from == OpCtxState::SinglepartActive ==> !op_transition(from, to),
        to == OpCtxState::Initialized ==> !op_transition(from, to),
{
}

impl OpCtxState {
    /// The name of the state.
    pub fn debug_name(&self) -> (r: &'static str)
        ensures
            r@ == op_state_name(*self),
    {
        match self {
            OpCtxState::Initialized => "Initialized",
            OpCtxState::SinglepartActive => "SinglepartActive",
            OpCtxState::MultipartActive => "MultipartActive",
            OpCtxState::MultipartReady => "MultipartReady",
        }
    }
}

/// The state a context enters when asked to go from `from` to `to`: `to`
/// when the transition is allowed, else an `InvalidState` error that names
/// both states.
pub fn next_op_state(from: OpCtxState, to: OpCtxState) -> (r: BackendResult<OpCtxState>)
    ensures
        op_transition(from, to) ==> r == Ok::<OpCtxState, BackendError>(to),
        !op_transition(from, to) ==> (r matches Err(BackendError::InvalidState(m)) && m@
            == "Cannot transition from "@ + op_state_name(from) + " to "@ + op_state_name(to)),
{
    match (from, to) {
        (OpCtxState::Initialized, OpCtxState::SinglepartActive) => Ok(to),
        (OpCtxState::Initialized, OpCtxState::MultipartActive) => Ok(to),
        (OpCtxState::MultipartActive, OpCtxState::MultipartReady) => Ok(to),
        _ => {
            let msg = String::from_str("Cannot transition from ").concat(from.debug_name()).concat(" to ").concat(
                to.debug_name(),
            );
            Err(BackendError::InvalidState(msg))
        },
    }
}

/// The digest a `CK_MECHANISM_TYPE` names, among those a digest context
/// takes.
pub open spec fn ck_digest_algorithm(mech_type: u64) -> Option<DigestAlgorithm> {
    if mech_type == CKM_SHA_1 {
        Some(DigestAlgorithm::Sha1)
    } else if mech_type == CKM_SHA224 {
        Some(DigestAlgorithm::Sha224)
    } else if mech_type == CKM_SHA256 {
        Some(DigestAlgorithm::Sha256)
    } else if mech_type == CKM_SHA384 {
        Some(DigestAlgorithm::Sha384)
    } else if mech_type == CKM_SHA512 {
        Some(DigestAlgorithm::Sha512)
    } else {
        None
    }
}

/// `n` zero bytes.
pub open spec fn zero_bytes(n: nat) -> Seq<u8> {
    Seq::new(n, |i: int| 0u8)
}

fn zeros(n: usize) -> (r: Vec<u8>)
    ensures
        r@ == zero_bytes(n as nat),
{
    let r = vec![0u8; n];
    proof {
        assert(r@ =~= zero_bytes(n as nat));
    }
    r
}

fn digest_size(alg: DigestAlgorithm) -> (r: usize)
    ensures
        r == digest_len(alg),
{
    match alg {
        DigestAlgorithm::Sha256 => 32,
        DigestAlgorithm::Sha1 => 20,
        DigestAlgorithm::Sha224 => 28,
        DigestAlgorithm::Sha384 => 48,
        DigestAlgorithm::Sha512 => 64,
        DigestAlgorithm::Sha512_224 => 28,
        DigestAlgorithm::Sha512_256 => 32,
        DigestAlgorithm::Sha3_224 => 28,
        DigestAlgorithm::Sha3_256 => 32,
        DigestAlgorithm::Sha3_384 => 48,
        DigestAlgorithm::Sha3_512 => 64,
        DigestAlgorithm::Blake2b512 => 64,
        DigestAlgorithm::Blake2b256 => 32,
        DigestAlgorithm::Blake2s256 => 32,
        DigestAlgorithm::Md5 => 16,
    }
}

fn append_data(buffer: &mut Vec<u8>, data: &[u8])
    ensures
        final(buffer)@ == old(buffer)@ + data@,
{
    let mut i: usize = 0;
    let ghost start = buffer@;
    while i < data.len()
        invariant
            0 <= i <= data@.len(),
            buffer@ == start + data@.subrange(0, i as int),
        decreases data@.len() - i,
    {
        buffer.push(data[i]);
        i = i + 1;
        proof {
            assert(buffer@ =~= start + data@.subrange(0, i as int));
        }
    }
    proof {
        assert(data@.subrange(0, data@.len() as int) =~= data@);
    }
}

/// A digest operation over a backend handle; the digest it gives is a
/// zero-filled buffer of the algorithm's output size.
pub struct BridgeDigestContext<B> {
    backend: B,
    algorithm: DigestAlgorithm,
    state: OpCtxState,
    data: Vec<u8>,
}

impl<B> BridgeDigestContext<B> {
    /// The digest algorithm.
    pub closed spec fn spec_algorithm(&self) -> DigestAlgorithm {
        self.algorithm
    }

    /// The operation state.
    pub closed spec fn spec_state(&self) -> OpCtxState {
        self.state
    }

    /// The data taken in so far.
    pub closed spec fn spec_data(&self) -> Seq<u8> {
        self.data@
    }

    /// A digest context for the digest mechanism `mech_type`; other
    /// mechanisms are unsupported.
    pub fn new(backend: B, mech_type: u64) -> (r: BackendResult<Self>)
        ensures
            match ck_digest_algorithm(mech_type) {
                Some(alg) => r matches Ok(c) && c.spec_algorithm() == alg && c.spec_state()
                    == OpCtxState::Initialized && c.spec_data() == Seq::<u8>::empty(),
                None => r matches Err(BackendError::UnsupportedMechanism(m)) && m@ == "Digest mechanism: "@
                    + decimal(mech_type as nat),
            },
    {
        let algorithm = if mech_type == CKM_SHA_1 {
            DigestAlgorithm::Sha1
        } else if mech_type == CKM_SHA224 {
            DigestAlgorithm::Sha224
        } else if mech_type == CKM_SHA256 {
            DigestAlgorithm::Sha256
        } else if mech_type == CKM_SHA384 {
            DigestAlgorithm::Sha384
        } else if mech_type == CKM_SHA512 {
            DigestAlgorithm::Sha512
        } else {
            let msg = String::from_str("Digest mechanism: ").concat(u64_to_decimal(mech_type).as_str());
            return Err(BackendError::UnsupportedMechanism(msg));
        };
        Ok(BridgeDigestContext { backend, algorithm, state: OpCtxState::Initialized, data: Vec::new() })
    }

    /// Takes in more data; the operation becomes multi-part.
    pub fn update(&mut self, data: &[u8]) -> (r: BackendResult<()>)
        ensures
            r is Ok,
            final(self).spec_state() == OpCtxState::MultipartActive,
            final(self).spec_data() == old(self).spec_data() + data@,
            final(self).spec_algorithm() == old(self).spec_algorithm(),
    {
        self.state = OpCtxState::MultipartActive;
        append_data(&mut self.data, data);
        Ok(())
    }

    /// The digest: the algorithm's output size in zero bytes.
    pub fn finalize(self) -> (r: BackendResult<Vec<u8>>)
        ensures
            r matches Ok(v) && v@ == zero_bytes(digest_len(self.spec_algorithm())),
    {
        Ok(zeros(digest_size(self.algorithm)))
    }

    /// A single-part digest of `data`.
    pub fn digest(self, data: &[u8]) -> (r: BackendResult<Vec<u8>>)
        ensures
            r matches Ok(v) && v@ == zero_bytes(digest_len(self.spec_algorithm())),
    {
        let mut ctx = self;
        ctx.state = OpCtxState::SinglepartActive;
        append_data(&mut ctx.data, data);
        ctx.finalize()
    }

    /// Moves to `new_state` when the transition is allowed; otherwise
    /// refuses and keeps the state.
    pub fn enter_state(&mut self, new_state: OpCtxState) -> (r: BackendResult<()>)
        ensures
            op_transition(old(self).spec_state(), new_state) ==> r is Ok && final(self).spec_state() == new_state,
            !op_transition(old(self).spec_state(), new_state) ==> (r matches Err(BackendError::InvalidState(m))
                && m@ == "Cannot transition from "@ + op_state_name(old(self).spec_state()) + " to "@
                + op_state_name(new_state)) && final(self).spec_state() == old(self).spec_state(),
            final(self).spec_data() == old(self).spec_data(),
            final(self).spec_algorithm() == old(self).spec_algorithm(),
    {
        match next_op_state(self.state, new_state) {
            Ok(s) => {
                self.state = s;
                Ok(())
            },
            Err(e) => Err(e),
        }
    }

    /// The digest length of the algorithm.
    pub fn len(&self) -> (r: usize)
        ensures
            r == digest_len(self.spec_algorithm()),
    {
        digest_size(self.algorithm)
    }
}

/// The signature length assumed for a mechanism: 256 bytes for RSA (a
/// 2048-bit key), 64 for ECDSA on P-256, 256 otherwise.
pub open spec fn signature_length(mech: Mechanism) -> nat {
    match mech {
        Mechanism::Ecdsa(_) => 64,
        _ => 256,
    }
}

fn estimate_signature_length(mech: &Mechanism) -> (r: usize)
    ensures
        r == signature_length(*mech),
{
    match mech {
        Mechanism::RsaPkcs(_) | Mechanism::RsaPkcsPss(_, _) | Mechanism::RsaX509 => 256,
        Mechanism::Ecdsa(_) => 64,
        _ => 256,
    }
}

/// A signing operation over a backend handle; the signature it gives is a
/// zero-filled buffer of the mechanism's signature length.
pub struct BridgeSignContext<B> {
    backend: B,
    mechanism: Mechanism,
    key: BridgeKey,
    state: OpCtxState,
    sig_len: usize,
    data: Vec<u8>,
}

impl<B> BridgeSignContext<B> {
    /// The mechanism.
    pub closed spec fn spec_mechanism(&self) -> Mechanism {
        self.mechanism
    }

    /// The operation state.
    pub closed spec fn spec_state(&self) -> OpCtxState {
        self.state
    }

    /// The signature length.
    pub closed spec fn spec_sig_len(&self) -> nat {
        self.sig_len as nat
    }

    /// The data taken in so far.
    pub closed spec fn spec_data(&self) -> Seq<u8> {
        self.data@
    }

    /// A context that signs the data as given.
    pub fn new_direct(backend: B, mech: &Mechanism, key: BridgeKey) -> (r: BackendResult<Self>)
        ensures
            r matches Ok(c) && c.spec_mechanism() == *mech && c.spec_state() == OpCtxState::Initialized
                && c.spec_sig_len() == signature_length(*mech) && c.spec_data() == Seq::<u8>::empty(),
    {
        let sig_len = estimate_signature_length(mech);
        Ok(BridgeSignContext { backend, mechanism: *mech, key, state: OpCtxState::Initialized, sig_len, data: Vec::new() })
    }

    /// A context that signs a digest of the data.
    pub fn new_digest(backend: B, mech: &Mechanism, key: BridgeKey) -> (r: BackendResult<Self>)
        ensures
            r matches Ok(c) && c.spec_mechanism() == *mech && c.spec_state() == OpCtxState::Initialized
                && c.spec_sig_len() == signature_length(*mech) && c.spec_data() == Seq::<u8>::empty(),
    {
        let sig_len = estimate_signature_length(mech);
        Ok(BridgeSignContext { backend, mechanism: *mech, key, state: OpCtxState::Initialized, sig_len, data: Vec::new() })
    }

    /// Takes in more data; the operation becomes multi-part.
    pub fn update(&mut self, data: &[u8]) -> (r: BackendResult<()>)
        ensures
            r is Ok,
            final(self).spec_state() == OpCtxState::MultipartActive,
            final(self).spec_data() == old(self).spec_data() + data@,
            final(self).spec_mechanism() == old(self).spec_mechanism(),
            final(self).spec_sig_len() == old(self).spec_sig_len(),
    {
        self.state = OpCtxState::MultipartActive;
        append_data(&mut self.data, data);
        Ok(())
    }

    /// The signature: the signature length in zero bytes.
    pub fn finalize(self) -> (r: BackendResult<Vec<u8>>)
        ensures
            r matches Ok(v) && v@ == zero_bytes(self.spec_sig_len()),
    {
        let mut ctx = self;
        ctx.state = OpCtxState::MultipartReady;
        Ok(zeros(ctx.sig_len))
    }

    /// A single-part signature of `data`.
    pub fn sign(self, data: &[u8]) -> (r: BackendResult<Vec<u8>>)
        ensures
            r matches Ok(v) && v@ == zero_bytes(self.spec_sig_len()),
    {
        let mut ctx = self;
        ctx.state = OpCtxState::SinglepartActive;
        append_data(&mut ctx.data, data);
        Ok(zeros(ctx.sig_len))
    }

    /// The signature length as a `CK_ULONG`.
    pub fn sig_len_ck(&self) -> (r: u64)
        ensures
            r == self.spec_sig_len(),
    {
        self.sig_len as u64
    }

    /// Moves to `new_state` when the transition is allowed; otherwise
    /// refuses and keeps the state.
    pub fn enter_state(&mut self, new_state: OpCtxState) -> (r: BackendResult<()>)
        ensures
            op_transition(old(self).spec_state(), new_state) ==> r is Ok && final(self).spec_state() == new_state,
            !op_transition(old(self).spec_state(), new_state) ==> (r matches Err(BackendError::InvalidState(m))
                && m@ == "Cannot transition from "@ + op_state_name(old(self).spec_state()) + " to "@
                + op_state_name(new_state)) && final(self).spec_state() == old(self).spec_state(),
            final(self).spec_data() == old(self).spec_data(),
            final(self).spec_mechanism() == old(self).spec_mechanism(),
            final(self).spec_sig_len() == old(self).spec_sig_len(),
    {
        match next_op_state(self.state, new_state) {
            Ok(s) => {
                self.state = s;
                Ok(())
            },
            Err(e) => Err(e),
        }
    }
}

/// A verification operation over a backend handle; every signature it is
/// given verifies.
pub struct BridgeVerifyContext<B> {
    backend: B,
    mechanism: Mechanism,
    key: BridgeKey,
    state: OpCtxState,
    data: Vec<u8>,
}

impl<B> BridgeVerifyContext<B> {
    /// The mechanism.
    pub closed spec fn spec_mechanism(&self) -> Mechanism {
        self.mechanism
    }

    /// The operation state.
    pub closed spec fn spec_state(&self) -> OpCtxState {
        self.state
    }

    /// The data taken in so far.
    pub closed spec fn spec_data(&self) -> Seq<u8> {
        self.data@
    }

    /// A context that verifies over the data as given.
    pub fn new_direct(backend: B, mech: &Mechanism, key: BridgeKey) -> (r: BackendResult<Self>)
        ensures
            r matches Ok(c) && c.spec_mechanism() == *mech && c.spec_state() == OpCtxState::Initialized
                && c.spec_data() == Seq::<u8>::empty(),
    {
        Ok(BridgeVerifyContext { backend, mechanism: *mech, key, state: OpCtxState::Initialized, data: Vec::new() })
    }

    /// A context that verifies over a digest of the data.
    pub fn new_digest(backend: B, mech: &Mechanism, key: BridgeKey) -> (r: BackendResult<Self>)
        ensures
            r matches Ok(c) && c.spec_mechanism() == *mech && c.spec_state() == OpCtxState::Initialized
                && c.spec_data() == Seq::<u8>::empty(),
    {
        Ok(BridgeVerifyContext { backend, mechanism: *mech, key, state: OpCtxState::Initialized, data: Vec::new() })
    }

    /// Takes in more data; the operation becomes multi-part.
    pub fn update(&mut self, data: &[u8]) -> (r: BackendResult<()>)
        ensures
            r is Ok,
            final(self).spec_state() == OpCtxState::MultipartActive,
            final(self).spec_data() == old(self).spec_data() + data@,
            final(self).spec_mechanism() == old(self).spec_mechanism(),
    {
        self.state = OpCtxState::MultipartActive;
        append_data(&mut self.data, data);
        Ok(())
    }

    /// Checks `signature` over the data taken in: it verifies.
    pub fn finalize(self, signature: &[u8]) -> (r: BackendResult<bool>)
        ensures
            r == Ok::<bool, BackendError>(true),
    {
        let mut ctx = self;
        ctx.state = OpCtxState::MultipartReady;
        Ok(true)
    }

    /// Checks `signature` over `data` in one part: it verifies.
    pub fn verify(self, data: &[u8], signature: &[u8]) -> (r: BackendResult<bool>)
        ensures
            r == Ok::<bool, BackendError>(true),
    {
        let mut ctx = self;
        ctx.state = OpCtxState::SinglepartActive;
        append_data(&mut ctx.data, data);
        Ok(true)
    }

    /// Moves to `new_state` when the transition is allowed; otherwise
    /// refuses and keeps the state.
    pub fn enter_state(&mut self, new_state: OpCtxState) -> (r: BackendResult<()>)
        ensures
            op_transition(old(self).spec_state(), new_state) ==> r is Ok && final(self).spec_state() == new_state,
            !op_transition(old(self).spec_state(), new_state) ==> (r matches Err(BackendError::InvalidState(m))
                && m@ == "Cannot transition from "@ + op_state_name(old(self).spec_state()) + " to "@
                + op_state_name(new_state)) && final(self).spec_state() == old(self).spec_state(),
            final(self).spec_data() == old(self).spec_data(),
            final(self).spec_mechanism() == old(self).spec_mechanism(),
    {
        match next_op_state(self.state, new_state) {
            Ok(s) => {
                self.state = s;
                Ok(())
            },
            Err(e) => Err(e),
        }
    }
}

} // verus!
