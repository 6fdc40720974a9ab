//! A backend and a PKCS#11 provider built on AWS-LC.

pub mod state;
pub mod lc;
pub mod key;
pub mod context;
pub mod backend;
pub mod format;
pub mod provider;
