//! Conversions between PKCS#11 codes and backend types, and byte helpers.

pub mod conversion;
