//! The interfaces that backends, their keys, key pairs, certificates and
//! operation contexts offer.

pub mod key;
pub mod context;
pub mod crypto;
