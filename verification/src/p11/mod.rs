//! The PKCS#11 provider core: the provider's crypto interface, its object
//! database, sessions, and the bridge to the backend layer.

pub mod api;
pub mod bridge;
pub mod ck;
pub mod compat;
pub mod db;
pub mod interface;
pub mod ops;
pub mod session;
