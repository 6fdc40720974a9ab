//! The backend interface that the provider core is written against: key and
//! certificate handles with their attributes, and a multi-part signing
//! context.

use vstd::prelude::*;

verus! {

/// Errors of backend operations.
#[derive(Debug, Clone, Copy, PartialEq, Eq, Structural)]
pub enum Error {
    General,
    BadMechanism,
    KeyGen,
    KeyImport,
    CertImport,
    InvalidKey,
    InvalidCertificate,
    Digest,
    Encrypt,
    Decrypt,
    Sign,
    Verify,
    Random,
    Unsupported,
    AttributeMissing,
}

/// The result type of backend operations.
pub type Result<T> = core::result::Result<T, Error>;

/// A key handle; the key material stays with the backend.
pub trait Key {
    /// The type of the key.
    fn key_type(&self) -> Result<KeyType>;

    /// The size of the key in bits.
    fn size_bits(&self) -> Result<usize>;

    /// The size in bytes of a PKCS#11 signature made with this key.
    fn signature_size(&self) -> Result<usize>;

    /// One attribute of the key.
    fn get_attribute(&self, attribute: KeyAttribute) -> Result<Vec<u8>>;
}

/// Supported key types.
#[derive(Debug, Clone, Copy, PartialEq, Eq, Structural)]
pub enum KeyType {
    Rsa,
    Ec,
}

/// Attributes that can be read from a key object.
#[derive(Debug, Clone, Copy, PartialEq, Eq, Structural)]
pub enum KeyAttribute {
    RsaModulus,
    RsaPublicExponent,
    EcParams,
    EcPoint,
}

/// An X.509 certificate handle.
pub trait Certificate {
    /// The key type of the certificate's public key.
    type PublicKey: Key;

    /// One attribute of the certificate.
    fn get_attribute(&self, attribute: CertAttribute) -> Result<Vec<u8>>;

    /// Verifies the certificate against a public key.
    fn verify<K: Key>(&self, key: &K) -> Result<()>;

    /// The certificate's public key.
    fn public_key(&self) -> Result<Self::PublicKey>;
}

/// Attributes that can be read from a certificate object.
#[derive(Debug, Clone, Copy, PartialEq, Eq, Structural)]
pub enum CertAttribute {
    Subject,
    Issuer,
    SerialNumber,
    /// The full DER encoding.
    Value,
}

/// A multi-part signing operation.
pub trait SignContext {
    /// Adds data to sign.
    fn update(&mut self, data: &[u8]) -> Result<()>;

    /// The signature.
    fn finalize(self) -> Result<Vec<u8>>;
}

} // verus!
