//! A PKCS#11 provider with pluggable backends: backend types, traits and
//! conversions, a mock backend for testing, an AWS-LC backend, and the
//! provider core (object database, sessions, operations and the bridge to
//! the backends).

pub mod aws;
pub mod clock;
pub mod digests;
pub mod info;
pub mod mock;
pub mod p11;
pub mod rng;
pub mod text;
pub mod traits;
pub mod types;
pub mod utils;
