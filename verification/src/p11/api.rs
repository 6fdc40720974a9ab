//! The crypto interface of the PKCS#11 provider: key and certificate
//! handles, their attributes, and PKCS#11 mechanisms with their codes.

use vstd::prelude::*;
use crate::p11::bridge::context::ck_digest_algorithm;
use crate::p11::ck::{CKM_SHA224, CKM_SHA256, CKM_SHA384, CKM_SHA512, CKM_SHA_1};
use crate::types::mechanism::{DigestAlgorithm, digest_len};

verus! {

/// Errors of backend operations.
#[derive(Debug, Clone, Copy, PartialEq, Eq, Structural)]
pub enum Error {
    General,
    BadMechanism,
    KeyGen,
    KeyImport,
    CertImport,
    InvalidKey,
    InvalidCertificate,
    Digest,
    Encrypt,
    Decrypt,
    Sign,
    Verify,
    Random,
    Unsupported,
    AttributeMissing,
}

/// The result type of backend operations.
pub type Result<T> = core::result::Result<T, Error>;

/// Supported key types.
#[derive(Debug, Clone, Copy, PartialEq, Eq, Structural)]
pub enum KeyType {
    Rsa,
    Ec,
}

/// Attributes that can be read from a key object.
#[derive(Debug, Clone, Copy, PartialEq, Eq, Structural)]
pub enum KeyAttribute {
    RsaModulus,
    RsaPublicExponent,
    EcParams,
    EcPoint,
}

/// An RSA key.
pub trait RsaKey {
    /// The modulus.
    fn modulus(&self) -> Vec<u8>;

    /// The public exponent.
    fn public_exponent(&self) -> Vec<u8>;

    /// The modulus size in bits.
    fn modulus_bits(&self) -> usize;
}

/// An EC key.
pub trait EcKey {
    /// The parameters in X9.62 format.
    fn params_x962(&self) -> Vec<u8>;

    /// The public point Q in X9.62 format.
    fn point_q_x962(&self) -> Vec<u8>;
}

/// A key handle; the key material stays with the backend.
pub trait Key: RsaKey + EcKey + Sized {
    /// The type of the key.
    fn key_type(&self) -> KeyType;

    /// The public key.
    fn public_key(&self) -> Result<Self>;
}

/// Certificate categories.
#[derive(Debug, Clone, Copy, PartialEq, Eq, Structural)]
pub enum CertCategory {
    Unverified,
    Token,
    Authority,
    Other,
}

/// Attributes that can be read from a certificate object.
#[derive(Debug, Clone, Copy, PartialEq, Eq, Structural)]
pub enum CertAttribute {
    Subject,
    Issuer,
    SerialNumber,
    /// The full DER encoding.
    Value,
}

/// An X.509 certificate handle.
pub trait Certificate {
    /// The certificate category.
    fn category(&self) -> CertCategory;

    /// The subject DN.
    fn subject(&self) -> Vec<u8>;

    /// The issuer DN.
    fn issuer(&self) -> Vec<u8>;

    /// The serial number.
    fn serial_number(&self) -> Vec<u8>;

    /// The DER encoding.
    fn to_der(&self) -> Vec<u8>;
}

/// The bytes of a result that carries bytes.
pub open spec fn bytes_of(r: Result<Vec<u8>>) -> Result<Seq<u8>> {
    match r {
        Ok(v) => Ok(v@),
        Err(e) => Err(e),
    }
}

/// A multi-part digest operation.
pub trait DigestContext: Sized {
    /// Whether adding `data` may give `r` and leave the operation as `next`
    /// (anything, unless an implementation says more).
    open spec fn spec_update(&self, data: Seq<u8>, r: Result<()>, next: Self) -> bool {
        true
    }

    /// Whether the digest may come out as `r` (anything, unless an
    /// implementation says more).
    open spec fn spec_finalize(&self, r: Result<Seq<u8>>) -> bool {
        true
    }

    /// Add data to digest.
    fn update(&mut self, data: &[u8]) -> (r: Result<()>)
        ensures
            old(self).spec_update(data@, r, *final(self)),
    ;

    /// The digest.
    fn finalize(self) -> (r: Result<Vec<u8>>)
        ensures
            self.spec_finalize(bytes_of(r)),
    ;
}

/// A multi-part signing operation.
pub trait SignContext: Sized {
    /// Whether adding `data` may give `r` and leave the operation as `next`
    /// (anything, unless an implementation says more).
    open spec fn spec_update(&self, data: Seq<u8>, r: Result<()>, next: Self) -> bool {
        true
    }

    /// Whether the signature may come out as `r` (anything, unless an
    /// implementation says more).
    open spec fn spec_finalize(&self, r: Result<Seq<u8>>) -> bool {
        true
    }

    /// Add data to sign.
    fn update(&mut self, data: &[u8]) -> (r: Result<()>)
        ensures
            old(self).spec_update(data@, r, *final(self)),
    ;

    /// The signature.
    fn finalize(self) -> (r: Result<Vec<u8>>)
        ensures
            self.spec_finalize(bytes_of(r)),
    ;
}

/// A multi-part verification operation.
pub trait VerifyContext: Sized {
    /// Whether adding `data` may give `r` and leave the operation as `next`
    /// (anything, unless an implementation says more).
    open spec fn spec_update(&self, data: Seq<u8>, r: Result<()>, next: Self) -> bool {
        true
    }

    /// Whether checking `signature` may give `r` (anything, unless an
    /// implementation says more).
    open spec fn spec_finalize(&self, signature: Seq<u8>, r: Result<()>) -> bool {
        true
    }

    /// Add data to verify.
    fn update(&mut self, data: &[u8]) -> (r: Result<()>)
        ensures
            old(self).spec_update(data@, r, *final(self)),
    ;

    /// Check `signature` over the data added.
    fn finalize(self, signature: &[u8]) -> (r: Result<()>)
        ensures
            self.spec_finalize(signature@, r),
    ;
}

/// A crypto-agnostic backend: the primitives the provider's sessions run
/// their operations on.
pub trait VtokBackend {
    /// A key the backend loaded or generated.
    type BackendKey: Key;

    /// A certificate the backend loaded.
    type BackendCert: Certificate;

    /// A digest operation of the backend.
    type DigestCtx: DigestContext;

    /// A signing operation of the backend.
    type SignCtx: SignContext;

    /// A verification operation of the backend.
    type VerifyCtx: VerifyContext;

    /// Generates an RSA key.
    fn generate_rsa_key(&self, modulus_bits: usize, public_exponent: Option<&[u8]>) -> Result<Self::BackendKey>;

    /// Generates an EC key on the curve with the given DER-encoded OID.
    fn generate_ec_key(&self, curve_oid_der: &[u8]) -> Result<Self::BackendKey>;

    /// Loads a private key from PEM.
    fn load_private_key(&self, pem: &str) -> Result<Self::BackendKey>;

    /// Loads a certificate chain from PEM.
    fn load_certificates(&self, pem: &str) -> Result<Vec<Self::BackendCert>>;

    /// A single-part digest.
    fn digest(&self, mechanism: &Mechanism, data: &[u8]) -> Result<Vec<u8>>;

    /// A single-part encryption.
    fn encrypt(&self, mechanism: &Mechanism, key: &Self::BackendKey, plaintext: &[u8]) -> Result<Vec<u8>>;

    /// A single-part decryption.
    fn decrypt(&self, mechanism: &Mechanism, key: &Self::BackendKey, ciphertext: &[u8]) -> Result<Vec<u8>>;

    /// A single-part signature.
    fn sign(&self, mechanism: &Mechanism, key: &Self::BackendKey, data: &[u8]) -> Result<Vec<u8>>;

    /// A single-part verification.
    fn verify(&self, mechanism: &Mechanism, key: &Self::BackendKey, data: &[u8], signature: &[u8]) -> Result<()>;

    /// Starts a multi-part digest.
    fn digest_init(&self, mechanism: &Mechanism) -> Result<Self::DigestCtx>;

    /// Starts a multi-part signature.
    fn sign_init(&self, mechanism: &Mechanism, key: &Self::BackendKey) -> Result<Self::SignCtx>;

    /// Starts a multi-part verification.
    fn verify_init(&self, mechanism: &Mechanism, key: &Self::BackendKey) -> Result<Self::VerifyCtx>;

    /// Random bytes.
    fn generate_random(&self, len: usize) -> Result<Vec<u8>>;
}

/// Digest algorithm of a mechanism.
#[derive(Debug, Clone, Copy, PartialEq, Eq, Structural)]
pub enum MechDigest {
    Sha1,
    Sha224,
    Sha256,
    Sha384,
    Sha512,
}

/// A mechanism.
#[derive(Debug, Clone, Copy, PartialEq, Eq, Structural)]
pub enum Mechanism {
    RsaX509,
    RsaPkcs(Option<MechDigest>),
    RsaPkcsPss(Option<MechDigest>, Option<usize>),
    Ecdsa(Option<MechDigest>),
    Digest(MechDigest),
}

/// The `CK_MECHANISM_TYPE` of each digest.
pub open spec fn digest_ck(d: MechDigest) -> u64 {
    match d {
        MechDigest::Sha1 => 0x220,
        MechDigest::Sha224 => 0x255,
        MechDigest::Sha256 => 0x250,
        MechDigest::Sha384 => 0x260,
        MechDigest::Sha512 => 0x270,
    }
}

/// The digest of a `CK_MECHANISM_TYPE`, if it names one.
pub open spec fn ck_digest(c: u64) -> Option<MechDigest> {
    if c == 0x220 {
        Some(MechDigest::Sha1)
    } else if c == 0x255 {
        Some(MechDigest::Sha224)
    } else if c == 0x250 {
        Some(MechDigest::Sha256)
    } else if c == 0x260 {
        Some(MechDigest::Sha384)
    } else if c == 0x270 {
        Some(MechDigest::Sha512)
    } else {
        None
    }
}

/// The `CK_MECHANISM_TYPE` of each mechanism (parameters do not count).
pub open spec fn mech_ck(m: Mechanism) -> u64 {
    match m {
        Mechanism::RsaX509 => 3,
        Mechanism::RsaPkcs(_) => 1,
        Mechanism::RsaPkcsPss(_, _) => 0x47,
        Mechanism::Ecdsa(_) => 0x1041,
        Mechanism::Digest(d) => digest_ck(d),
    }
}

/// The mechanism of a `CK_MECHANISM_TYPE`, without parameters, if it names
/// one.
pub open spec fn ck_mech(c: u64) -> Option<Mechanism> {
    if c == 3 {
        Some(Mechanism::RsaX509)
    } else if c == 1 {
        Some(Mechanism::RsaPkcs(None))
    } else if c == 0x47 {
        Some(Mechanism::RsaPkcsPss(None, None))
    } else if c == 0x1041 {
        Some(Mechanism::Ecdsa(None))
    } else {
        match ck_digest(c) {
            Some(d) => Some(Mechanism::Digest(d)),
            None => None,
        }
    }
}

/// A mechanism with its parameters dropped.
pub open spec fn mech_bare(m: Mechanism) -> Mechanism {
    match m {
        Mechanism::RsaX509 => Mechanism::RsaX509,
        Mechanism::RsaPkcs(_) => Mechanism::RsaPkcs(None),
        Mechanism::RsaPkcsPss(_, _) => Mechanism::RsaPkcsPss(None, None),
        Mechanism::Ecdsa(_) => Mechanism::Ecdsa(None),
        Mechanism::Digest(d) => Mechanism::Digest(d),
    }
}

impl MechDigest {
    /// The `CK_MECHANISM_TYPE` of the digest.
    pub fn ck_type(&self) -> (r: u64)
        ensures
            r == digest_ck(*self),
    {
        match self {
            MechDigest::Sha1 => 0x220,
            MechDigest::Sha224 => 0x255,
            MechDigest::Sha256 => 0x250,
            MechDigest::Sha384 => 0x260,
            MechDigest::Sha512 => 0x270,
        }
    }

    /// The digest a raw `CK_MECHANISM_TYPE` names, if any.
    pub fn from_ckraw_mech(raw_mech: &u64) -> (r: Option<MechDigest>)
        ensures
            r == ck_digest(*raw_mech),
    {
        match *raw_mech {
            0x220 => Some(MechDigest::Sha1),
            0x255 => Some(MechDigest::Sha224),
            0x250 => Some(MechDigest::Sha256),
            0x260 => Some(MechDigest::Sha384),
            0x270 => Some(MechDigest::Sha512),
            _ => None,
        }
    }
}

impl Mechanism {
    /// The `CK_MECHANISM_TYPE` of the mechanism.
    pub fn ck_type(&self) -> (r: u64)
        ensures
            r == mech_ck(*self),
    {
        match self {
            Mechanism::RsaX509 => 3,
            Mechanism::RsaPkcs(_) => 1,
            Mechanism::RsaPkcsPss(_, _) => 0x47,
            Mechanism::Ecdsa(_) => 0x1041,
            Mechanism::Digest(d) => d.ck_type(),
        }
    }

    /// The mechanism (without parameters) a raw `CK_MECHANISM_TYPE` names, if
    /// any.
    pub fn from_ckraw_mech(raw_mech: &u64) -> (r: Option<Mechanism>)
        ensures
            r == ck_mech(*raw_mech),
    {
        match *raw_mech {
            3 => Some(Mechanism::RsaX509),
            1 => Some(Mechanism::RsaPkcs(None)),
            0x47 => Some(Mechanism::RsaPkcsPss(None, None)),
            0x1041 => Some(Mechanism::Ecdsa(None)),
            _ => match MechDigest::from_ckraw_mech(raw_mech) {
                Some(d) => Some(Mechanism::Digest(d)),
                None => None,
            },
        }
    }
}

/// Digests and their codes are in one-to-one correspondence: decoding the
/// code of a digest gives the digest, and a code that decodes is the code of
/// what it decodes to.
pub proof fn lemma_digest_code_round_trip(d: MechDigest, c: u64)
    ensures
        ck_digest(digest_ck(d)) == Some(d),
        ck_digest(c) matches Some(e) ==> digest_ck(e) == c,
{
}

/// The output length in bytes of each digest.
pub open spec fn mech_digest_len(d: MechDigest) -> nat {
    match d {
        MechDigest::Sha1 => 20,
        MechDigest::Sha224 => 28,
        MechDigest::Sha256 => 32,
        MechDigest::Sha384 => 48,
        MechDigest::Sha512 => 64,
    }
}

/// The code of a digest is the standard `CKM_*` code of that digest: a
/// session's digest operation for the code computes a digest of the same
/// length, and a code names a digest only where the standard does.
pub proof fn lemma_digest_codes_are_standard(d: MechDigest, c: u64)
    ensures
        ck_digest_algorithm(digest_ck(d)) matches Some(a) && digest_len(a) == mech_digest_len(d),
        ck_digest(c) matches Some(e) ==> (ck_digest_algorithm(c) matches Some(a) && digest_len(a) == mech_digest_len(
            e,
        )),
        ck_digest(c) is Some <==> (c == CKM_SHA_1 || c == CKM_SHA224 || c == CKM_SHA256 || c == CKM_SHA384 || c
            == CKM_SHA512),
        ck_mech(c) matches Some(Mechanism::Digest(e)) ==> (ck_digest_algorithm(c) matches Some(a) && digest_len(a)
            == mech_digest_len(e)),
{
}

/// Decoding the code of a mechanism gives the mechanism without its
/// parameters; a code that decodes is the code of what it decodes to.
pub proof fn lemma_mechanism_code_round_trip(m: Mechanism, c: u64)
    ensures
        ck_mech(mech_ck(m)) == Some(mech_bare(m)),
        ck_mech(c) matches Some(n) ==> mech_ck(n) == c,
{
}

} // verus!
