//! Backend identification and capability flags.

use vstd::prelude::*;

verus! {

/// Backend capability flags.
#[derive(Debug, Clone, Copy, PartialEq, Eq, Structural)]
pub struct BackendCapabilities {
    /// Hardware-backed key generation.
    pub hardware_keys: bool,
    /// Secure key storage.
    pub secure_storage: bool,
    /// Hardware random number generation.
    pub hardware_rng: bool,
    /// Side-channel resistant operations.
    pub side_channel_resistant: bool,
}

impl Default for BackendCapabilities {
    /// No capability.
    fn default() -> (r: Self)
        ensures
            !r.hardware_keys && !r.secure_storage && !r.hardware_rng && !r.side_channel_resistant,
    {
        BackendCapabilities {
            hardware_keys: false,
            secure_storage: false,
            hardware_rng: false,
            side_channel_resistant: false,
        }
    }
}

/// Name, version, description and capabilities of a backend.
#[derive(Debug)]
pub struct BackendInfo {
    pub name: String,
    pub version: String,
    pub description: String,
    pub capabilities: BackendCapabilities,
}

impl BackendInfo {
    /// Backend information from its parts.
    pub fn new(name: &str, version: &str, description: &str, capabilities: BackendCapabilities) -> (r: Self)
        ensures
            r.name@ == name@,
            r.version@ == version@,
            r.description@ == description@,
            r.capabilities == capabilities,
    {
        BackendInfo {
            name: String::from_str(name),
            version: String::from_str(version),
            description: String::from_str(description),
            capabilities,
        }
    }

    /// The backend's name.
    pub fn name(&self) -> (r: &str)
        ensures
            r@ == self.name@,
    {
        self.name.as_str()
    }

    /// The backend's version.
    pub fn version(&self) -> (r: &str)
        ensures
            r@ == self.version@,
    {
        self.version.as_str()
    }

    /// The backend's description.
    pub fn description(&self) -> (r: &str)
        ensures
            r@ == self.description@,
    {
        self.description.as_str()
    }
}

impl Clone for BackendInfo {
    fn clone(&self) -> (r: Self)
        ensures
            r.name@ == self.name@,
            r.version@ == self.version@,
            r.description@ == self.description@,
            r.capabilities == self.capabilities,
    {
        BackendInfo {
            name: self.name.clone(),
            version: self.version.clone(),
            description: self.description.clone(),
            capabilities: self.capabilities,
        }
    }
}

} // verus!
