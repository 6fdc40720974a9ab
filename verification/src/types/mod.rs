//! Key, mechanism, context and error types shared by every backend.

pub mod context;
pub mod error;
pub mod key;
pub mod mechanism;
