//! Key generation and randomness from AWS-LC.

use vstd::prelude::*;
use aws_lc_rs::encoding::AsDer;
use aws_lc_rs::signature::KeyPair;

verus! {

/// The RSA key sizes AWS-LC generates.
#[derive(Debug, Clone, Copy, PartialEq, Eq, Structural)]
pub enum RsaSize {
    Rsa2048,
    Rsa3072,
    Rsa4096,
    Rsa8192,
}

/// The length in bytes of the modulus of an RSA key of each size (the
/// size in bits over 8, as `aws_lc_rs::rsa::KeySize::len` gives it).
pub open spec fn rsa_modulus_len(size: RsaSize) -> nat {
    match size {
        RsaSize::Rsa2048 => 256,
        RsaSize::Rsa3072 => 384,
        RsaSize::Rsa4096 => 512,
        RsaSize::Rsa8192 => 1024,
    }
}

/// The ECDSA curves used here, each with its SHA-2 signing algorithm.
#[derive(Debug, Clone, Copy, PartialEq, Eq, Structural)]
pub enum EcCurve {
    P256,
    P384,
}

/// `aws_lc_rs::signature::RsaKeyPair::generate` for `size`, with the new key
/// pair turned into its PKCS#8 DER encoding and the big-endian bytes of its
/// public modulus; a failure is given by its message. The key is random:
/// of the bytes only the modulus length is promised, which is that of a key
/// of the requested size.
#[verifier::external_body]
pub(crate) fn rsa_generate(size: RsaSize) -> (r: Result<(Vec<u8>, Vec<u8>), String>)
    ensures
        r matches Ok(p) ==> p.1@.len() == rsa_modulus_len(size),
{
    let key_size = match size {
        RsaSize::Rsa2048 => aws_lc_rs::rsa::KeySize::Rsa2048,
        RsaSize::Rsa3072 => aws_lc_rs::rsa::KeySize::Rsa3072,
        RsaSize::Rsa4096 => aws_lc_rs::rsa::KeySize::Rsa4096,
        RsaSize::Rsa8192 => aws_lc_rs::rsa::KeySize::Rsa8192,
    };
    let kp = aws_lc_rs::signature::RsaKeyPair::generate(key_size).map_err(|e| e.to_string())?;
    let der = kp.as_der().map_err(|e| e.to_string())?;
    let modulus = kp.public_key().modulus().big_endian_without_leading_zero().to_vec();
    Ok((der.as_ref().to_vec(), modulus))
}

/// `aws_lc_rs::signature::EcdsaKeyPair::generate_pkcs8` for the curve's
/// ASN.1 signing algorithm: a fresh private key as a PKCS#8 document, or the
/// failure's message. Of the random bytes only this is promised: they are
/// a private key of that curve, which `from_pkcs8` with the same algorithm
/// accepts.
#[verifier::external_body]
pub(crate) fn ecdsa_generate_pkcs8(curve: EcCurve) -> (r: Result<Vec<u8>, String>)
    ensures
        r matches Ok(d) ==> aws_ec_public_point(curve, d@) is Some,
{
    let alg = match curve {
        EcCurve::P256 => &aws_lc_rs::signature::ECDSA_P256_SHA256_ASN1_SIGNING,
        EcCurve::P384 => &aws_lc_rs::signature::ECDSA_P384_SHA384_ASN1_SIGNING,
    };
    let rng = aws_lc_rs::rand::SystemRandom::new();
    let doc = aws_lc_rs::signature::EcdsaKeyPair::generate_pkcs8(alg, &rng).map_err(|e| e.to_string())?;
    Ok(doc.as_ref().to_vec())
}

/// The public point that AWS-LC derives from a PKCS#8 ECDSA private key on
/// `curve`, or `None` where it rejects the document.
pub uninterp spec fn aws_ec_public_point(curve: EcCurve, pkcs8: Seq<u8>) -> Option<Seq<u8>>;

/// `aws_lc_rs::signature::EcdsaKeyPair::from_pkcs8` with the curve's signing
/// algorithm, then the key pair's public key bytes: the result is the name
/// `aws_ec_public_point` of the arguments; a rejection comes with its
/// message.
#[verifier::external_body]
pub(crate) fn ecdsa_public_point(curve: EcCurve, pkcs8: &[u8]) -> (r: Result<Vec<u8>, String>)
    ensures
        r matches Ok(p) ==> aws_ec_public_point(curve, pkcs8@) == Some(p@),
        r is Err ==> aws_ec_public_point(curve, pkcs8@) is None,
{
    let alg = match curve {
        EcCurve::P256 => &aws_lc_rs::signature::ECDSA_P256_SHA256_ASN1_SIGNING,
        EcCurve::P384 => &aws_lc_rs::signature::ECDSA_P384_SHA384_ASN1_SIGNING,
    };
    let kp = aws_lc_rs::signature::EcdsaKeyPair::from_pkcs8(alg, pkcs8).map_err(|e| e.to_string())?;
    Ok(kp.public_key().as_ref().to_vec())
}

/// `aws_lc_rs::rand::fill` on `len` zero bytes: `len` random bytes, or the
/// failure's message.
#[verifier::external_body]
pub(crate) fn fill_random(len: usize) -> (r: Result<Vec<u8>, String>)
    ensures
        r matches Ok(v) ==> v@.len() == len,
{
    let mut bytes = vec![0u8; len];
    aws_lc_rs::rand::fill(&mut bytes).map_err(|e| e.to_string())?;
    Ok(bytes)
}

} // verus!
