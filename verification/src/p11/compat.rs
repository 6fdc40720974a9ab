//! Key and certificate handles that stand in for a PEM/X.509 parser: every
//! key reads as a 2048-bit RSA key with fixed-size attribute values, and
//! every certificate chain holds one certificate that verifies.

use vstd::prelude::*;

verus! {

/// Certificate categories.
#[derive(Clone, Copy, Debug, PartialEq, Eq, Structural)]
pub enum CertCategory {
    Unverified,
    Token,
    Authority,
    Other,
}

/// Key algorithms.
#[derive(Clone, Copy, Debug, PartialEq, Eq, Structural)]
pub enum KeyAlgo {
    Rsa,
    Ec,
}

/// Errors of key and certificate handling.
#[derive(Clone, Copy, Debug, PartialEq, Eq, Structural)]
pub enum Error {
    GeneralError,
    InvalidKey,
    InvalidCert,
}

/// The bit size every key reports.
pub const PKEY_BITS: u32 = 2048;

/// A private key read from PEM.
#[derive(Clone, Copy, Debug)]
pub struct Pkey {}

/// `n` zero bytes.
pub open spec fn zeros(n: nat) -> Seq<u8> {
    Seq::new(n, |i: int| 0u8)
}

/// The RSA public exponent 65537, big-endian.
pub open spec fn exponent_65537() -> Seq<u8> {
    seq![0x01u8, 0x00u8, 0x01u8]
}

fn zero_bytes(n: usize) -> (r: Vec<u8>)
    ensures
        r@ == zeros(n as nat),
{
    let r = vec![0u8; n];
    proof {
        assert(r@ =~= zeros(n as nat));
    }
    r
}

impl Pkey {
    /// Reads a private key from PEM text; every text is accepted.
    pub fn from_private_pem(pem: &str) -> (r: core::result::Result<Pkey, Error>)
        ensures
            r is Ok,
    {
        Ok(Pkey {})
    }

    /// The key's algorithm.
    pub fn algo(&self) -> (r: core::result::Result<KeyAlgo, Error>)
        ensures
            r == Ok::<KeyAlgo, Error>(KeyAlgo::Rsa),
    {
        Ok(KeyAlgo::Rsa)
    }

    /// The key size in bits.
    pub fn num_bits(&self) -> (r: core::result::Result<u32, Error>)
        ensures
            r == Ok::<u32, Error>(PKEY_BITS),
    {
        Ok(PKEY_BITS)
    }

    /// The RSA modulus: 256 bytes.
    pub fn rsa_modulus(&self) -> (r: core::result::Result<Vec<u8>, Error>)
        ensures
            r matches Ok(v) && v@ == zeros(256),
    {
        Ok(zero_bytes(256))
    }

    /// The RSA public exponent: 65537.
    pub fn rsa_public_exponent(&self) -> (r: core::result::Result<Vec<u8>, Error>)
        ensures
            r matches Ok(v) && v@ == exponent_65537(),
    {
        let v = vec![0x01u8, 0x00u8, 0x01u8];
        proof {
            assert(v@ =~= exponent_65537());
        }
        Ok(v)
    }

    /// The EC parameters in X9.62 form: 32 bytes.
    pub fn ec_params_x962(&self) -> (r: core::result::Result<Vec<u8>, Error>)
        ensures
            r matches Ok(v) && v@ == zeros(32),
    {
        Ok(zero_bytes(32))
    }

    /// The EC point in X9.62 form: 65 bytes.
    pub fn ec_point_q_x962(&self) -> (r: core::result::Result<Vec<u8>, Error>)
        ensures
            r matches Ok(v) && v@ == zeros(65),
    {
        Ok(zero_bytes(65))
    }
}

/// An X.509 certificate.
#[derive(Clone, Copy, Debug)]
pub struct X509 {}

impl X509 {
    /// The DER subject name: 32 bytes.
    pub fn subject_name(&self) -> (r: core::result::Result<Vec<u8>, Error>)
        ensures
            r matches Ok(v) && v@ == zeros(32),
    {
        Ok(zero_bytes(32))
    }

    /// The DER issuer name: 32 bytes.
    pub fn issuer(&self) -> (r: core::result::Result<Vec<u8>, Error>)
        ensures
            r matches Ok(v) && v@ == zeros(32),
    {
        Ok(zero_bytes(32))
    }

    /// The serial number: 16 bytes.
    pub fn serial_no(&self) -> (r: core::result::Result<Vec<u8>, Error>)
        ensures
            r matches Ok(v) && v@ == zeros(16),
    {
        Ok(zero_bytes(16))
    }

    /// The DER encoding: 256 bytes.
    pub fn to_der(&self) -> (r: core::result::Result<Vec<u8>, Error>)
        ensures
            r matches Ok(v) && v@ == zeros(256),
    {
        Ok(zero_bytes(256))
    }
}

/// A certificate chain.
pub struct X509Chain {
    certs: Vec<X509>,
}

impl X509Chain {
    /// The number of certificates in the chain.
    pub closed spec fn spec_len(&self) -> nat {
        self.certs@.len()
    }

    /// Reads a chain from PEM text: a chain of one certificate.
    pub fn chain_from_pem(pem: &str) -> (r: core::result::Result<X509Chain, Error>)
        ensures
            r matches Ok(c) && c.spec_len() == 1,
    {
        Ok(X509Chain { certs: vec![X509 {}] })
    }

    /// Whether the chain holds more than one certificate.
    pub fn multiple_certs(&self) -> (r: bool)
        ensures
            r == (self.spec_len() > 1),
    {
        self.certs.len() > 1
    }

    /// Verifies the chain.
    pub fn verify_chain(&self) -> (r: core::result::Result<(), Error>)
        ensures
            r is Ok,
    {
        Ok(())
    }

    /// Verifies the chain against a key.
    pub fn verify(&self, pkey: Pkey) -> (r: core::result::Result<(), Error>)
        ensures
            r is Ok,
    {
        Ok(())
    }

    /// The certificates of the chain, each with its position.
    pub fn enumerate(&self) -> (r: Vec<(usize, X509)>)
        ensures
            r@.len() == self.spec_len(),
            forall|i: int| 0 <= i < r@.len() ==> (#[trigger] r@[i]).0 == i,
    {
        let mut out: Vec<(usize, X509)> = Vec::new();
        let mut i: usize = 0;
        while i < self.certs.len()
            invariant
                i <= self.certs@.len(),
                out@.len() == i,
                forall|j: int| 0 <= j < out@.len() ==> (#[trigger] out@[j]).0 == j,
            decreases self.certs@.len() - i,
        {
            out.push((i, self.certs[i]));
            i = i + 1;
        }
        out
    }
}

} // verus!
