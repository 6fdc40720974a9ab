//! A mock cryptographic backend for testing: deterministic keys, signatures,
//! ciphertexts and digests, with error injection and simulated delays.

pub mod config;
pub mod key;
pub mod context;
pub mod backend;
pub mod provider;
pub mod utils;
