//! Message digests computed by the outside hash implementations: `sha2` for
//! the mock backend, AWS-LC for the AWS-LC backend.

use vstd::prelude::*;
use sha2::Digest;

verus! {

/// The SHA-256 digest of `data`, as the `sha2` crate computes it.
pub uninterp spec fn sha2_sha256(data: Seq<u8>) -> Seq<u8>;

/// The SHA-384 digest of `data`, as the `sha2` crate computes it.
pub uninterp spec fn sha2_sha384(data: Seq<u8>) -> Seq<u8>;

/// The SHA-512 digest of `data`, as the `sha2` crate computes it.
pub uninterp spec fn sha2_sha512(data: Seq<u8>) -> Seq<u8>;

/// `sha2::Sha256::digest`: the digest is named `sha2_sha256` of the input and
/// is 32 bytes long (the type's output size).
#[verifier::external_body]
pub(crate) fn sha256(data: &[u8]) -> (r: Vec<u8>)
    ensures
        r@ == sha2_sha256(data@),
        r@.len() == 32,
{
    sha2::Sha256::digest(data).to_vec()
}

/// `sha2::Sha384::digest`: named `sha2_sha384` of the input, 48 bytes long.
#[verifier::external_body]
pub(crate) fn sha384(data: &[u8]) -> (r: Vec<u8>)
    ensures
        r@ == sha2_sha384(data@),
        r@.len() == 48,
{
    sha2::Sha384::digest(data).to_vec()
}

/// `sha2::Sha512::digest`: named `sha2_sha512` of the input, 64 bytes long.
#[verifier::external_body]
pub(crate) fn sha512(data: &[u8]) -> (r: Vec<u8>)
    ensures
        r@ == sha2_sha512(data@),
        r@.len() == 64,
{
    sha2::Sha512::digest(data).to_vec()
}

/// The digest algorithms that AWS-LC offers here.
#[derive(Debug, Clone, Copy, PartialEq, Eq, Structural)]
pub enum AwsDigest {
    Sha1,
    Sha224,
    Sha256,
    Sha384,
    Sha512,
    Sha512_256,
}

/// Output length in bytes of each AWS-LC digest algorithm.
pub open spec fn aws_digest_len(alg: AwsDigest) -> nat {
    match alg {
        AwsDigest::Sha1 => 20,
        AwsDigest::Sha224 => 28,
        AwsDigest::Sha256 => 32,
        AwsDigest::Sha384 => 48,
        AwsDigest::Sha512 => 64,
        AwsDigest::Sha512_256 => 32,
    }
}

/// The digest of `data` under `alg`, as AWS-LC computes it.
pub uninterp spec fn aws_lc_digest(alg: AwsDigest, data: Seq<u8>) -> Seq<u8>;

/// `aws_lc_rs::digest::digest` with the algorithm constant that `alg` names:
/// the result is named `aws_lc_digest` of the arguments and has the output
/// length that the crate's constants give.
#[verifier::external_body]
pub(crate) fn aws_digest(alg: AwsDigest, data: &[u8]) -> (r: Vec<u8>)
    ensures
        r@ == aws_lc_digest(alg, data@),
        r@.len() == aws_digest_len(alg),
{
    let algorithm = match alg {
        AwsDigest::Sha1 => &aws_lc_rs::digest::SHA1_FOR_LEGACY_USE_ONLY,
        AwsDigest::Sha224 => &aws_lc_rs::digest::SHA224,
        AwsDigest::Sha256 => &aws_lc_rs::digest::SHA256,
        AwsDigest::Sha384 => &aws_lc_rs::digest::SHA384,
        AwsDigest::Sha512 => &aws_lc_rs::digest::SHA512,
        AwsDigest::Sha512_256 => &aws_lc_rs::digest::SHA512_256,
    };
    aws_lc_rs::digest::digest(algorithm, data).as_ref().to_vec()
}

} // verus!
