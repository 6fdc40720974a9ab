//! Operation context states, mechanism parameters and context configuration.

use vstd::prelude::*;
use crate::types::mechanism::DigestAlgorithm;

verus! {

/// State of an operation context.
#[derive(Debug, Clone, Copy, PartialEq, Eq, Hash, Structural)]
pub enum ContextState {
    /// Initialized, no data processed yet.
    Initialized,
    /// A single-part operation is active.
    SinglePartActive,
    /// A multi-part operation is active and accepts more data.
    MultiPartActive,
    /// A multi-part operation is ready for finalization.
    MultiPartReady,
    /// Finalized; the context cannot be used further.
    Finalized,
}

pub open spec fn state_can_update(s: ContextState) -> bool {
    s is Initialized || s is MultiPartActive
}

pub open spec fn state_can_finalize(s: ContextState) -> bool {
    s is Initialized || s is MultiPartActive || s is MultiPartReady
}

/// The variant name of each state, as its derived `Debug` prints it.
pub open spec fn state_debug(s: ContextState) -> Seq<char> {
    match s {
        ContextState::Initialized => "Initialized"@,
        ContextState::SinglePartActive => "SinglePartActive"@,
        ContextState::MultiPartActive => "MultiPartActive"@,
        ContextState::MultiPartReady => "MultiPartReady"@,
        ContextState::Finalized => "Finalized"@,
    }
}

impl ContextState {
    /// The variant name, as the derived `Debug` prints it.
    pub fn debug_name(&self) -> (r: &'static str)
        ensures
            r@ == state_debug(*self),
    {
        match self {
            ContextState::Initialized => "Initialized",
            ContextState::SinglePartActive => "SinglePartActive",
            ContextState::MultiPartActive => "MultiPartActive",
            ContextState::MultiPartReady => "MultiPartReady",
            ContextState::Finalized => "Finalized",
        }
    }

    /// Whether the context accepts new data.
    pub fn can_update(&self) -> (r: bool)
        ensures
            r == state_can_update(*self),
    {
        match self {
            ContextState::Initialized | ContextState::MultiPartActive => true,
            _ => false,
        }
    }

    /// Whether the context can be finalized.
    pub fn can_finalize(&self) -> (r: bool)
        ensures
            r == state_can_finalize(*self),
    {
        match self {
            ContextState::Initialized | ContextState::MultiPartActive
            | ContextState::MultiPartReady => true,
            _ => false,
        }
    }

    /// Whether the context is finalized.
    pub fn is_finalized(&self) -> (r: bool)
        ensures
            r == (*self is Finalized),
    {
        match self {
            ContextState::Finalized => true,
            _ => false,
        }
    }

    /// Whether a single-part operation can start.
    pub fn can_single_part(&self) -> (r: bool)
        ensures
            r == (*self is Initialized),
    {
        match self {
            ContextState::Initialized => true,
            _ => false,
        }
    }
}

/// Parameters for RSA PKCS#1 PSS padding.
#[derive(Debug, Clone, PartialEq, Eq, Hash)]
pub struct RsaPssParams {
    pub hash_algorithm: DigestAlgorithm,
    pub mgf_algorithm: DigestAlgorithm,
    pub salt_length: usize,
}

/// Parameters for RSA OAEP padding.
#[derive(Debug, Clone, PartialEq, Eq, Hash)]
pub struct RsaOaepParams {
    pub hash_algorithm: DigestAlgorithm,
    pub mgf_algorithm: DigestAlgorithm,
    pub label: Option<Vec<u8>>,
}

/// Parameters for AES GCM mode.
#[derive(Debug, Clone, PartialEq, Eq, Hash)]
pub struct AesGcmParams {
    pub iv: Vec<u8>,
    pub aad: Option<Vec<u8>>,
    pub tag_length: usize,
}

/// Parameters for AES CCM mode.
#[derive(Debug, Clone, PartialEq, Eq, Hash)]
pub struct AesCcmParams {
    pub nonce: Vec<u8>,
    pub aad: Option<Vec<u8>>,
    pub tag_length: usize,
}

/// Parameters for ChaCha20-Poly1305.
#[derive(Debug, Clone, PartialEq, Eq, Hash)]
pub struct ChaCha20Poly1305Params {
    pub nonce: [u8; 12],
    pub aad: Option<Vec<u8>>,
}

/// Parameters for PBKDF2.
#[derive(Debug, Clone, PartialEq, Eq, Hash)]
pub struct Pbkdf2Params {
    pub salt: Vec<u8>,
    pub iterations: u32,
    pub key_length: usize,
}

/// Parameters for HKDF.
#[derive(Debug, Clone, PartialEq, Eq, Hash)]
pub struct HkdfParams {
    pub salt: Option<Vec<u8>>,
    pub info: Vec<u8>,
    pub key_length: usize,
}

/// Argon2 variants.
#[derive(Debug, Clone, Copy, PartialEq, Eq, Hash, Structural)]
pub enum Argon2Variant {
    Argon2d,
    Argon2i,
    Argon2id,
}

/// Parameters for Argon2.
#[derive(Debug, Clone, PartialEq, Eq, Hash)]
pub struct Argon2Params {
    pub salt: Vec<u8>,
    pub memory_cost: u32,
    pub time_cost: u32,
    pub parallelism: u32,
    pub output_length: usize,
    pub variant: Argon2Variant,
}

/// Parameters for scrypt.
#[derive(Debug, Clone, PartialEq, Eq, Hash)]
pub struct ScryptParams {
    pub salt: Vec<u8>,
    pub n: u32,
    pub r: u32,
    pub p: u32,
    pub key_length: usize,
}

/// Mechanism parameters.
#[derive(Debug, Clone, PartialEq, Eq)]
pub enum MechanismParams {
    NoParams,
    RsaPss(RsaPssParams),
    RsaOaep(RsaOaepParams),
    AesGcm(AesGcmParams),
    AesCcm(AesCcmParams),
    ChaCha20Poly1305(ChaCha20Poly1305Params),
    Pbkdf2(Pbkdf2Params),
    Hkdf(HkdfParams),
    Argon2(Argon2Params),
    Scrypt(ScryptParams),
    Raw(Vec<u8>),
}

impl Default for MechanismParams {
    fn default() -> (r: Self)
        ensures
            r is NoParams,
    {
        MechanismParams::NoParams
    }
}

/// The map that a list of named attributes stands for: each name to the
/// value of its last entry.
pub open spec fn attr_map(attrs: Seq<(String, Vec<u8>)>) -> Map<Seq<char>, Seq<u8>>
    decreases attrs.len(),
{
    if attrs.len() == 0 {
        Map::empty()
    } else {
        attr_map(attrs.drop_last()).insert(attrs.last().0@, attrs.last().1@)
    }
}

/// No two entries of the list share a name.
pub open spec fn attrs_unique(attrs: Seq<(String, Vec<u8>)>) -> bool {
    forall|i: int, j: int|
        0 <= i < attrs.len() && 0 <= j < attrs.len() && i != j ==> #[trigger] attrs[i].0@
            != #[trigger] attrs[j].0@
}

/// In a list with unique names, the map holds exactly the listed names, each
/// with its listed value.
pub proof fn lemma_attr_map_entries(attrs: Seq<(String, Vec<u8>)>)
    requires
        attrs_unique(attrs),
    ensures
        forall|i: int| 0 <= i < attrs.len() ==> #[trigger] attr_map(attrs).contains_key(attrs[i].0@)
            && attr_map(attrs)[attrs[i].0@] == attrs[i].1@,
        forall|k: Seq<char>| #[trigger] attr_map(attrs).contains_key(k) ==> exists|i: int|
            0 <= i < attrs.len() && attrs[i].0@ == k,
    decreases attrs.len(),
{
    if attrs.len() > 0 {
        let prefix = attrs.drop_last();
        assert(attrs_unique(prefix)) by {
            assert forall|i: int, j: int|
                0 <= i < prefix.len() && 0 <= j < prefix.len() && i != j implies #[trigger] prefix[i].0@
                != #[trigger] prefix[j].0@ by {
                assert(prefix[i] == attrs[i]);
                assert(prefix[j] == attrs[j]);
            }
        }
        lemma_attr_map_entries(prefix);
        assert forall|i: int| 0 <= i < attrs.len() implies #[trigger] attr_map(attrs).contains_key(
            attrs[i].0@,
        ) && attr_map(attrs)[attrs[i].0@] == attrs[i].1@ by {
            if i < attrs.len() - 1 {
                assert(prefix[i] == attrs[i]);
                assert(attr_map(prefix).contains_key(prefix[i].0@));
                assert(attrs[i].0@ != attrs[attrs.len() - 1].0@);
            }
        }
        assert forall|k: Seq<char>| #[trigger] attr_map(attrs).contains_key(k) implies exists|i: int|
            0 <= i < attrs.len() && attrs[i].0@ == k by {
            if k != attrs.last().0@ {
                assert(attr_map(prefix).contains_key(k));
                let i = choose|i: int| 0 <= i < prefix.len() && prefix[i].0@ == k;
                assert(attrs[i] == prefix[i]);
            } else {
                assert(attrs[attrs.len() - 1].0@ == k);
            }
        }
    }
}

/// Context configuration for cryptographic operations.
#[derive(Debug, Clone)]
pub struct ContextConfig {
    /// Mechanism parameters.
    pub params: MechanismParams,
    /// Additional named attributes, each name at most once.
    pub attributes: Vec<(String, Vec<u8>)>,
    /// Buffer size hint.
    pub buffer_size_hint: Option<usize>,
    /// Whether to use hardware acceleration if available.
    pub use_hardware: bool,
}

impl ContextConfig {
    /// The attributes have unique names.
    pub open spec fn wf(&self) -> bool {
        attrs_unique(self.attributes@)
    }

    /// The attributes as a map from name to value.
    pub open spec fn attribute_map(&self) -> Map<Seq<char>, Seq<u8>> {
        attr_map(self.attributes@)
    }

    /// No parameters, no attributes, no size hint, hardware allowed.
    pub fn new() -> (r: Self)
        ensures
            r.wf(),
            r.params is NoParams,
            r.attribute_map() == Map::<Seq<char>, Seq<u8>>::empty(),
            r.buffer_size_hint is None,
            r.use_hardware,
    {
        ContextConfig {
            params: MechanismParams::NoParams,
            attributes: Vec::new(),
            buffer_size_hint: None,
            use_hardware: true,
        }
    }

    /// Replace the mechanism parameters.
    pub fn with_params(self, params: MechanismParams) -> (r: Self)
        ensures
            r == (ContextConfig { params, ..self }),
    {
        ContextConfig { params, ..self }
    }

    /// Set the attribute `name` to `value`, replacing any earlier value.
    pub fn with_attribute(self, name: String, value: Vec<u8>) -> (r: Self)
        requires
            self.wf(),
        ensures
            r.wf(),
            r.attribute_map() == self.attribute_map().insert(name@, value@),
            r.params == self.params,
            r.buffer_size_hint == self.buffer_size_hint,
            r.use_hardware == self.use_hardware,
    {
        let ContextConfig { params, attributes, buffer_size_hint, use_hardware } = self;
        let attributes = attrs_insert(attributes, name, value);
        ContextConfig { params, attributes, buffer_size_hint, use_hardware }
    }

    /// Set the buffer size hint.
    pub fn with_buffer_size_hint(self, size: usize) -> (r: Self)
        ensures
            r == (ContextConfig { buffer_size_hint: Some(size), ..self }),
    {
        ContextConfig { buffer_size_hint: Some(size), ..self }
    }

    /// Set the hardware acceleration preference.
    pub fn with_hardware(self, use_hardware: bool) -> (r: Self)
        ensures
            r == (ContextConfig { use_hardware, ..self }),
    {
        ContextConfig { use_hardware, ..self }
    }
}

impl Default for ContextConfig {
    fn default() -> (r: Self)
        ensures
            r.wf(),
            r.params is NoParams,
            r.attribute_map() == Map::<Seq<char>, Seq<u8>>::empty(),
            r.buffer_size_hint is None,
            r.use_hardware,
    {
        ContextConfig::new()
    }
}

/// Insert `name -> value` into a list with unique names: the entry with that
/// name is replaced, or the pair is appended.
pub fn attrs_insert(attrs: Vec<(String, Vec<u8>)>, name: String, value: Vec<u8>) -> (r: Vec<(String, Vec<u8>)>)
    requires
        attrs_unique(attrs@),
    ensures
        attrs_unique(r@),
        attr_map(r@) == attr_map(attrs@).insert(name@, value@),
{
    let mut attrs = attrs;
    let mut i: usize = 0;
    let mut found = false;
    while i < attrs.len()
        invariant
            0 <= i <= attrs@.len(),
            attrs_unique(attrs@),
            !found ==> forall|j: int| 0 <= j < i ==> #[trigger] attrs@[j].0@ != name@,
            found ==> i < attrs@.len() && attrs@[i as int].0@ == name@,
        ensures
            !found ==> forall|j: int| 0 <= j < attrs@.len() ==> #[trigger] attrs@[j].0@ != name@,
            found ==> i < attrs@.len() && attrs@[i as int].0@ == name@,
        decreases attrs@.len() - i,
    {
        if attrs[i].0 == name {
            found = true;
            break;
        }
        i = i + 1;
    }
    let ghost before = attrs@;
    let ghost key = name@;
    let ghost val = value@;
    if found {
        let _removed = attrs.remove(i);
        attrs.push((name, value));
        proof {
            lemma_attr_map_entries(before);
            assert(attrs@.drop_last() =~= before.remove(i as int));
            lemma_attrs_replace(before, i as int, attrs@);
            assert(attrs@.last().0@ == key && attrs@.last().1@ == val);
        }
    } else {
        attrs.push((name, value));
        proof {
            assert(attrs@.drop_last() =~= before);
            assert(attr_map(attrs@) == attr_map(before).insert(key, val));
            assert forall|a: int, b: int|
                0 <= a < attrs@.len() && 0 <= b < attrs@.len() && a != b implies #[trigger] attrs@[a].0@
                != #[trigger] attrs@[b].0@ by {
                if a < before.len() && b < before.len() {
                    assert(attrs@[a] == before[a]);
                    assert(attrs@[b] == before[b]);
                }
            }
        }
    }
    attrs
}

/// Removing the entry at `i` of a list with unique names and appending a new
/// pair with the same name gives the map with that name updated.
proof fn lemma_attrs_replace(old_attrs: Seq<(String, Vec<u8>)>, i: int, new_attrs: Seq<(String, Vec<u8>)>)
    requires
        attrs_unique(old_attrs),
        0 <= i < old_attrs.len(),
        new_attrs.len() == old_attrs.len(),
        new_attrs.drop_last() == old_attrs.remove(i),
        new_attrs.last().0@ == old_attrs[i].0@,
    ensures
        attrs_unique(new_attrs),
        attr_map(new_attrs) == attr_map(old_attrs).insert(new_attrs.last().0@, new_attrs.last().1@),
{
    let rest = old_attrs.remove(i);
    let n = new_attrs.len();
    assert forall|a: int, b: int|
        0 <= a < n && 0 <= b < n && a != b implies #[trigger] new_attrs[a].0@
        != #[trigger] new_attrs[b].0@ by {
        let oa = if a < n - 1 { if a < i { a } else { a + 1 } } else { i };
        let ob = if b < n - 1 { if b < i { b } else { b + 1 } } else { i };
        if a < n - 1 {
            assert(new_attrs[a] == rest[a]);
        }
        if b < n - 1 {
            assert(new_attrs[b] == rest[b]);
        }
        assert(new_attrs[a].0@ == old_attrs[oa].0@);
        assert(new_attrs[b].0@ == old_attrs[ob].0@);
    }
    lemma_attr_map_entries(old_attrs);
    lemma_attr_map_entries(new_attrs);
    let m1 = attr_map(new_attrs);
    let m2 = attr_map(old_attrs).insert(new_attrs.last().0@, new_attrs.last().1@);
    assert forall|k: Seq<char>| #[trigger] m1.contains_key(k) <==> m2.contains_key(k) by {
        if m1.contains_key(k) {
            let a = choose|a: int| 0 <= a < n && new_attrs[a].0@ == k;
            if a < n - 1 {
                assert(new_attrs[a] == rest[a]);
                let oa = if a < i { a } else { a + 1 };
                assert(old_attrs[oa].0@ == k);
            }
        }
        if m2.contains_key(k) && k != new_attrs.last().0@ {
            let b = choose|b: int| 0 <= b < old_attrs.len() && old_attrs[b].0@ == k;
            assert(b != i);
            let nb = if b < i { b } else { b - 1 };
            assert(rest[nb] == old_attrs[b]);
            assert(new_attrs[nb] == rest[nb]);
        }
    }
    assert forall|k: Seq<char>| #[trigger] m1.contains_key(k) implies m1[k] == m2[k] by {
        let a = choose|a: int| 0 <= a < n && new_attrs[a].0@ == k;
        if a < n - 1 {
            assert(new_attrs[a] == rest[a]);
            let oa = if a < i { a } else { a + 1 };
            assert(rest[a] == old_attrs[oa]);
            assert(old_attrs[oa].0@ != old_attrs[i].0@);
        }
    }
    assert(m1 =~= m2);
}

/// The names and values of a list of named attributes.
pub open spec fn attrs_view(attrs: Seq<(String, Vec<u8>)>) -> Seq<(Seq<char>, Seq<u8>)> {
    attrs.map_values(|p: (String, Vec<u8>)| (p.0@, p.1@))
}

/// Lists with the same names and values stand for the same map, and one has
/// unique names when the other has.
pub proof fn lemma_attrs_view_eq(a: Seq<(String, Vec<u8>)>, b: Seq<(String, Vec<u8>)>)
    requires
        attrs_view(a) == attrs_view(b),
    ensures
        attr_map(a) == attr_map(b),
        attrs_unique(a) ==> attrs_unique(b),
    decreases a.len(),
{
    assert(a.len() == attrs_view(a).len() && b.len() == attrs_view(b).len());
    if a.len() > 0 {
        assert(attrs_view(a.drop_last()) =~= attrs_view(a).drop_last());
        assert(attrs_view(b.drop_last()) =~= attrs_view(b).drop_last());
        lemma_attrs_view_eq(a.drop_last(), b.drop_last());
        assert(attrs_view(a)[a.len() - 1] == attrs_view(b)[b.len() - 1]);
    }
    if attrs_unique(a) {
        assert forall|i: int, j: int|
            0 <= i < b.len() && 0 <= j < b.len() && i != j implies #[trigger] b[i].0@ != #[trigger] b[j].0@ by {
            assert(attrs_view(a)[i] == attrs_view(b)[i]);
            assert(attrs_view(a)[j] == attrs_view(b)[j]);
        }
    }
}

/// A copy of a list of named attributes.
pub fn copy_attrs(attrs: &Vec<(String, Vec<u8>)>) -> (r: Vec<(String, Vec<u8>)>)
    ensures
        attrs_view(r@) == attrs_view(attrs@),
        attr_map(r@) == attr_map(attrs@),
        attrs_unique(attrs@) ==> attrs_unique(r@),
{
    let mut out: Vec<(String, Vec<u8>)> = Vec::new();
    let mut i: usize = 0;
    while i < attrs.len()
        invariant
            0 <= i <= attrs@.len(),
            attrs_view(out@) == attrs_view(attrs@.subrange(0, i as int)),
        decreases attrs@.len() - i,
    {
        let name = attrs[i].0.clone();
        let value = vstd::slice::slice_to_vec(attrs[i].1.as_slice());
        let ghost before = out@;
        out.push((name, value));
        proof {
            assert(attrs_view(out@) =~= attrs_view(before).push((attrs@[i as int].0@, attrs@[i as int].1@)));
            assert(attrs_view(attrs@.subrange(0, i + 1)) =~= attrs_view(attrs@.subrange(0, i as int)).push(
                (attrs@[i as int].0@, attrs@[i as int].1@),
            ));
        }
        i = i + 1;
    }
    proof {
        assert(attrs@.subrange(0, attrs@.len() as int) =~= attrs@);
        lemma_attrs_view_eq(attrs@, out@);
        lemma_attrs_view_eq(out@, attrs@);
    }
    out
}

/// The value of the attribute `name` in a list with unique names.
pub fn attrs_get(attrs: &Vec<(String, Vec<u8>)>, name: &str) -> (r: Option<Vec<u8>>)
    requires
        attrs_unique(attrs@),
    ensures
        r matches Some(v) ==> attr_map(attrs@).contains_key(name@) && v@ == attr_map(attrs@)[name@],
        r is None ==> !attr_map(attrs@).contains_key(name@),
{
    proof {
        lemma_attr_map_entries(attrs@);
    }
    let key = String::from_str(name);
    let mut i: usize = 0;
    while i < attrs.len()
        invariant
            0 <= i <= attrs@.len(),
            key@ == name@,
            attrs_unique(attrs@),
            forall|j: int| 0 <= j < i ==> #[trigger] attrs@[j].0@ != name@,
            forall|j: int| 0 <= j < attrs@.len() ==> #[trigger] attr_map(attrs@).contains_key(attrs@[j].0@)
                && attr_map(attrs@)[attrs@[j].0@] == attrs@[j].1@,
            forall|k: Seq<char>| #[trigger] attr_map(attrs@).contains_key(k) ==> exists|j: int|
                0 <= j < attrs@.len() && attrs@[j].0@ == k,
        decreases attrs@.len() - i,
    {
        if attrs[i].0 == key {
            let v = vstd::slice::slice_to_vec(attrs[i].1.as_slice());
            proof {
                assert(attr_map(attrs@).contains_key(attrs@[i as int].0@));
            }
            return Some(v);
        }
        i = i + 1;
    }
    None
}

} // verus!
