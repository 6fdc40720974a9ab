//! The AWS-LC PKCS#11 provider: the AWS-LC backend with provider
//! information, capabilities and configuration.

use vstd::prelude::*;
use vstd::std_specs::convert::FromSpecImpl;
use crate::aws::backend::{AwsLcBackend, aws_mechanism_list, aws_supports};
use crate::types::error::{BackendError, error_message};
use crate::types::key::KeyAlgorithm;
use crate::types::mechanism::Mechanism;

verus! {

/// Provider information.
#[derive(Debug, Clone)]
pub struct ProviderInfo {
    pub name: String,
    pub version: String,
    pub description: String,
    pub vendor: String,
}

/// Provider errors.
#[derive(Debug)]
pub enum ProviderError {
    InitializationFailed(String),
    FinalizationFailed(String),
    BackendError(BackendError),
    ConfigurationError(String),
}

impl From<BackendError> for ProviderError {
    fn from(e: BackendError) -> (r: Self) {
        ProviderError::BackendError(e)
    }
}

impl FromSpecImpl<BackendError> for ProviderError {
    open spec fn obeys_from_spec() -> bool {
        true
    }

    open spec fn from_spec(v: BackendError) -> ProviderError {
        ProviderError::BackendError(v)
    }
}

/// The message of each provider error.
pub open spec fn provider_error_message(e: ProviderError) -> Seq<char> {
    match e {
        ProviderError::InitializationFailed(m) => "Provider initialization failed: "@ + m@,
        ProviderError::FinalizationFailed(m) => "Provider finalization failed: "@ + m@,
        ProviderError::BackendError(b) => "Backend error: "@ + error_message(b),
        ProviderError::ConfigurationError(m) => "Configuration error: "@ + m@,
    }
}

impl ProviderError {
    /// The error's message.
    pub fn message(&self) -> (r: String)
        ensures
            r@ == provider_error_message(*self),
    {
        match self {
            ProviderError::InitializationFailed(m) => String::from_str("Provider initialization failed: ").concat(m.as_str()),
            ProviderError::FinalizationFailed(m) => String::from_str("Provider finalization failed: ").concat(m.as_str()),
            ProviderError::BackendError(b) => String::from_str("Backend error: ").concat(b.message().as_str()),
            ProviderError::ConfigurationError(m) => String::from_str("Configuration error: ").concat(m.as_str()),
        }
    }
}

/// Provider capabilities.
#[derive(Debug, Clone, Copy, PartialEq, Eq, Structural)]
pub struct ProviderCapabilities {
    pub hardware_keys: bool,
    pub secure_storage: bool,
    pub hardware_rng: bool,
    pub side_channel_resistant: bool,
    pub fips_compliant: bool,
}

/// The capabilities of the AWS-LC provider: a hardware RNG and side-channel
/// resistance; FIPS compliance depends on the build and is not claimed.
pub open spec fn aws_provider_capabilities() -> ProviderCapabilities {
    ProviderCapabilities {
        hardware_keys: false,
        secure_storage: false,
        hardware_rng: true,
        side_channel_resistant: true,
        fips_compliant: false,
    }
}

impl Default for ProviderCapabilities {
    fn default() -> (r: Self)
        ensures
            r == aws_provider_capabilities(),
    {
        ProviderCapabilities {
            hardware_keys: false,
            secure_storage: false,
            hardware_rng: true,
            side_channel_resistant: true,
            fips_compliant: false,
        }
    }
}

/// Provider configuration.
#[derive(Debug)]
pub struct ProviderConfig {
    pub enable_logging: bool,
    pub log_level: String,
    pub max_sessions: usize,
    /// Session timeout in seconds, if any.
    pub session_timeout_secs: Option<u64>,
    pub enable_threading: bool,
}

impl Default for ProviderConfig {
    /// Logging at `info`, 1024 sessions, a one-hour timeout, threading.
    fn default() -> (r: Self)
        ensures
            r.enable_logging,
            r.log_level@ == "info"@,
            r.max_sessions == 1024,
            r.session_timeout_secs == Some(3600u64),
            r.enable_threading,
    {
        ProviderConfig {
            enable_logging: true,
            log_level: String::from_str("info"),
            max_sessions: 1024,
            session_timeout_secs: Some(3600),
            enable_threading: true,
        }
    }
}

/// Key sizes (bits) the AWS-LC provider offers for each algorithm.
pub open spec fn aws_key_size(a: KeyAlgorithm) -> Option<usize> {
    match a {
        KeyAlgorithm::Rsa2048 => Some(2048),
        KeyAlgorithm::Rsa3072 => Some(3072),
        KeyAlgorithm::Rsa4096 => Some(4096),
        KeyAlgorithm::EcdsaP256 => Some(256),
        KeyAlgorithm::EcdsaP384 => Some(384),
        KeyAlgorithm::Aes256 => Some(256),
        _ => None,
    }
}

/// The key size the provider offers for `a`.
fn key_size_for(a: KeyAlgorithm) -> (r: Option<usize>)
    ensures
        r == aws_key_size(a),
{
    match a {
        KeyAlgorithm::Rsa2048 => Some(2048),
        KeyAlgorithm::Rsa3072 => Some(3072),
        KeyAlgorithm::Rsa4096 => Some(4096),
        KeyAlgorithm::EcdsaP256 => Some(256),
        KeyAlgorithm::EcdsaP384 => Some(384),
        KeyAlgorithm::Aes256 => Some(256),
        _ => None,
    }
}

/// The AWS-LC PKCS#11 provider.
#[derive(Debug)]
pub struct AwsLcProvider {
    pub backend: AwsLcBackend,
}

impl AwsLcProvider {
    /// A provider over `backend`.
    pub fn new(backend: AwsLcBackend) -> (r: Self)
        ensures
            r.backend == backend,
    {
        AwsLcProvider { backend }
    }

    /// The backend.
    pub fn backend(&self) -> (r: &AwsLcBackend)
        ensures
            *r == self.backend,
    {
        &self.backend
    }

    /// The provider information.
    pub fn info(&self) -> (r: ProviderInfo)
        ensures
            r.name@ == "AWS-LC PKCS#11 Provider"@,
            r.version@ == "1.0.0"@,
            r.description@ == "Complete PKCS#11 provider with AWS-LC cryptographic backend"@,
            r.vendor@ == "Amazon Web Services"@,
    {
        ProviderInfo {
            name: String::from_str("AWS-LC PKCS#11 Provider"),
            version: String::from_str("1.0.0"),
            description: String::from_str("Complete PKCS#11 provider with AWS-LC cryptographic backend"),
            vendor: String::from_str("Amazon Web Services"),
        }
    }

    /// Initialization always succeeds.
    pub fn initialize(&self) -> (r: Result<(), ProviderError>)
        ensures
            r is Ok,
    {
        Ok(())
    }

    /// Finalization always succeeds.
    pub fn finalize(&self) -> (r: Result<(), ProviderError>)
        ensures
            r is Ok,
    {
        Ok(())
    }

    /// Whether the backend supports `mechanism`.
    pub fn supports_mechanism(&self, mechanism: &Mechanism) -> (r: bool)
        ensures
            r == aws_supports(*mechanism),
    {
        self.backend.supports_mechanism(mechanism)
    }

    /// The backend's mechanisms.
    pub fn supported_mechanisms(&self) -> (r: Vec<Mechanism>)
        ensures
            r@ == aws_mechanism_list(),
            forall|i: int| 0 <= i < r@.len() ==> aws_supports(#[trigger] r@[i]),
    {
        self.backend.supported_mechanisms()
    }

    /// The backend's key algorithms.
    pub fn supported_key_algorithms(&self) -> (r: Vec<KeyAlgorithm>)
        ensures
            r@ == seq![
                KeyAlgorithm::Rsa2048,
                KeyAlgorithm::Rsa3072,
                KeyAlgorithm::Rsa4096,
                KeyAlgorithm::EcdsaP256,
                KeyAlgorithm::EcdsaP384,
                KeyAlgorithm::Aes256,
            ],
    {
        self.backend.supported_key_algorithms()
    }

    /// The provider capabilities.
    pub fn capabilities(&self) -> (r: ProviderCapabilities)
        ensures
            r == aws_provider_capabilities(),
    {
        ProviderCapabilities::default()
    }

    /// The provider may be used from several threads.
    pub fn is_thread_safe(&self) -> (r: bool)
        ensures
            r,
    {
        true
    }

    /// At most 1024 sessions.
    pub fn max_sessions(&self) -> (r: Option<usize>)
        ensures
            r == Some(1024usize),
    {
        Some(1024)
    }

    /// The largest key size of `algorithm`, in bits.
    pub fn max_key_size(&self, algorithm: KeyAlgorithm) -> (r: Option<usize>)
        ensures
            r == aws_key_size(algorithm),
    {
        key_size_for(algorithm)
    }

    /// The smallest key size of `algorithm`, in bits.
    pub fn min_key_size(&self, algorithm: KeyAlgorithm) -> (r: Option<usize>)
        ensures
            r == aws_key_size(algorithm),
    {
        key_size_for(algorithm)
    }

    /// A provider over `backend`; the configuration is not kept.
    pub fn with_config(backend: AwsLcBackend, config: ProviderConfig) -> (r: Self)
        ensures
            r.backend == backend,
    {
        AwsLcProvider::new(backend)
    }

    /// The configuration: the default one, since none is kept.
    pub fn config(&self) -> (r: ProviderConfig)
        ensures
            r.enable_logging,
            r.log_level@ == "info"@,
            r.max_sessions == 1024,
            r.session_timeout_secs == Some(3600u64),
            r.enable_threading,
    {
        ProviderConfig::default()
    }

    /// A configuration update is accepted and has no effect.
    pub fn update_config(&mut self, config: ProviderConfig) -> (r: Result<(), ProviderError>)
        ensures
            r is Ok,
            *final(self) == *old(self),
    {
        Ok(())
    }
}

} // verus!
