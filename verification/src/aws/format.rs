//! Display names of mechanisms and algorithms for the provider's
//! information tool.

use vstd::prelude::*;
use crate::text::{decimal, usize_to_decimal};
use crate::types::key::{KeyAlgorithm, alg_debug};
use crate::types::mechanism::{DigestAlgorithm, Mechanism, digest_debug, mech_debug};

verus! {

/// The display name of a digest algorithm.
pub open spec fn digest_display(a: DigestAlgorithm) -> Seq<char> {
    match a {
        DigestAlgorithm::Sha1 => "SHA-1"@,
        DigestAlgorithm::Sha224 => "SHA-224"@,
        DigestAlgorithm::Sha256 => "SHA-256"@,
        DigestAlgorithm::Sha384 => "SHA-384"@,
        DigestAlgorithm::Sha512 => "SHA-512"@,
        DigestAlgorithm::Sha512_256 => "SHA-512/256"@,
        _ => digest_debug(a),
    }
}

/// The display name of a mechanism.
pub open spec fn mechanism_display(m: Mechanism) -> Seq<char> {
    match m {
        Mechanism::Digest(alg) => "Digest ("@ + digest_display(alg) + ")"@,
        Mechanism::RsaPkcs1 { digest } => match digest {
            Some(d) => "RSA PKCS#1 with "@ + digest_display(d),
            None => "RSA PKCS#1"@,
        },
        Mechanism::RsaPkcs1Pss { digest, mgf, salt_len } => "RSA PSS (digest: "@ + digest_display(digest)
            + ", mgf: "@ + digest_display(mgf) + ", salt: "@ + decimal(salt_len as nat) + ")"@,
        Mechanism::Ecdsa { digest } => match digest {
            Some(d) => "ECDSA with "@ + digest_display(d),
            None => "ECDSA"@,
        },
        _ => mech_debug(m),
    }
}

/// The display name of a key algorithm.
pub open spec fn key_algorithm_display(a: KeyAlgorithm) -> Seq<char> {
    match a {
        KeyAlgorithm::Rsa2048 => "RSA-2048"@,
        KeyAlgorithm::Rsa3072 => "RSA-3072"@,
        KeyAlgorithm::Rsa4096 => "RSA-4096"@,
        KeyAlgorithm::EcdsaP256 => "ECDSA P-256"@,
        KeyAlgorithm::EcdsaP384 => "ECDSA P-384"@,
        KeyAlgorithm::Aes256 => "AES-256"@,
        _ => alg_debug(a),
    }
}

/// The display name of a digest algorithm.
pub fn format_digest_algorithm(alg: &DigestAlgorithm) -> (r: String)
    ensures
        r@ == digest_display(*alg),
{
    match alg {
        DigestAlgorithm::Sha1 => String::from_str("SHA-1"),
        DigestAlgorithm::Sha224 => String::from_str("SHA-224"),
        DigestAlgorithm::Sha256 => String::from_str("SHA-256"),
        DigestAlgorithm::Sha384 => String::from_str("SHA-384"),
        DigestAlgorithm::Sha512 => String::from_str("SHA-512"),
        DigestAlgorithm::Sha512_256 => String::from_str("SHA-512/256"),
        _ => String::from_str(alg.debug_name()),
    }
}

/// The display name of a mechanism: digests, RSA PKCS#1 and PSS and ECDSA by
/// name, any other by its `Debug` rendering.
pub fn format_mechanism(mechanism: &Mechanism) -> (r: String)
    ensures
        r@ == mechanism_display(*mechanism),
{
    match mechanism {
        Mechanism::Digest(alg) => {
            let d = format_digest_algorithm(alg);
            String::from_str("Digest (").concat(d.as_str()).concat(")")
        },
        Mechanism::RsaPkcs1 { digest } => match digest {
            Some(d) => {
                let name = format_digest_algorithm(d);
                String::from_str("RSA PKCS#1 with ").concat(name.as_str())
            },
            None => String::from_str("RSA PKCS#1"),
        },
        Mechanism::RsaPkcs1Pss { digest, mgf, salt_len } => {
            let d = format_digest_algorithm(digest);
            let m = format_digest_algorithm(mgf);
            let salt = usize_to_decimal(*salt_len);
            String::from_str("RSA PSS (digest: ").concat(d.as_str()).concat(", mgf: ").concat(m.as_str()).concat(
                ", salt: ",
            ).concat(salt.as_str()).concat(")")
        },
        Mechanism::Ecdsa { digest } => match digest {
            Some(d) => {
                let name = format_digest_algorithm(d);
                String::from_str("ECDSA with ").concat(name.as_str())
            },
            None => String::from_str("ECDSA"),
        },
        _ => mechanism.debug_string(),
    }
}

/// The display name of a key algorithm.
pub fn format_key_algorithm(alg: &KeyAlgorithm) -> (r: String)
    ensures
        r@ == key_algorithm_display(*alg),
{
    match alg {
        KeyAlgorithm::Rsa2048 => String::from_str("RSA-2048"),
        KeyAlgorithm::Rsa3072 => String::from_str("RSA-3072"),
        KeyAlgorithm::Rsa4096 => String::from_str("RSA-4096"),
        KeyAlgorithm::EcdsaP256 => String::from_str("ECDSA P-256"),
        KeyAlgorithm::EcdsaP384 => String::from_str("ECDSA P-384"),
        KeyAlgorithm::Aes256 => String::from_str("AES-256"),
        _ => String::from_str(alg.debug_name()),
    }
}

} // verus!
