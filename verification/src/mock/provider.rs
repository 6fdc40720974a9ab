//! The mock PKCS#11 provider: the mock backend with provider information,
//! capabilities and configuration.

use vstd::prelude::*;
use vstd::std_specs::convert::FromSpecImpl;
use crate::mock::backend::{MockBackend, mock_supports};
use crate::mock::config::{MockConfig, delays_view, names_view};
use crate::types::error::{BackendError, error_message};
use crate::types::key::KeyAlgorithm;
use crate::types::mechanism::Mechanism;

verus! {

/// Provider information.
#[derive(Debug, Clone)]
pub struct ProviderInfo {
    pub name: String,
    pub version: String,
    pub description: String,
    pub vendor: String,
}

/// Provider errors.
#[derive(Debug)]
pub enum ProviderError {
    InitializationFailed(String),
    FinalizationFailed(String),
    BackendError(BackendError),
    ConfigurationError(String),
    MockError(String),
}

impl From<BackendError> for ProviderError {
    fn from(e: BackendError) -> (r: Self) {
        ProviderError::BackendError(e)
    }
}

impl FromSpecImpl<BackendError> for ProviderError {
    open spec fn obeys_from_spec() -> bool {
        true
    }

    open spec fn from_spec(v: BackendError) -> ProviderError {
        ProviderError::BackendError(v)
    }
}

/// The message of each provider error.
pub open spec fn provider_error_message(e: ProviderError) -> Seq<char> {
    match e {
        ProviderError::InitializationFailed(m) => "Provider initialization failed: "@ + m@,
        ProviderError::FinalizationFailed(m) => "Provider finalization failed: "@ + m@,
        ProviderError::BackendError(b) => "Backend error: "@ + error_message(b),
        ProviderError::ConfigurationError(m) => "Configuration error: "@ + m@,
        ProviderError::MockError(m) => "Mock error: "@ + m@,
    }
}

impl ProviderError {
    /// The error's message.
    pub fn message(&self) -> (r: String)
        ensures
            r@ == provider_error_message(*self),
    {
        match self {
            ProviderError::InitializationFailed(m) => String::from_str("Provider initialization failed: ").concat(m.as_str()),
            ProviderError::FinalizationFailed(m) => String::from_str("Provider finalization failed: ").concat(m.as_str()),
            ProviderError::BackendError(b) => String::from_str("Backend error: ").concat(b.message().as_str()),
            ProviderError::ConfigurationError(m) => String::from_str("Configuration error: ").concat(m.as_str()),
            ProviderError::MockError(m) => String::from_str("Mock error: ").concat(m.as_str()),
        }
    }
}

/// Provider capabilities.
#[derive(Debug, Clone, Copy, PartialEq, Eq, Structural)]
pub struct ProviderCapabilities {
    pub hardware_keys: bool,
    pub secure_storage: bool,
    pub hardware_rng: bool,
    pub side_channel_resistant: bool,
    pub fips_compliant: bool,
    pub deterministic_mode: bool,
    pub error_injection: bool,
    pub performance_simulation: bool,
}

/// The capabilities of the mock provider: no hardware, no FIPS; deterministic
/// mode, error injection and performance simulation.
pub open spec fn mock_capabilities() -> ProviderCapabilities {
    ProviderCapabilities {
        hardware_keys: false,
        secure_storage: false,
        hardware_rng: false,
        side_channel_resistant: false,
        fips_compliant: false,
        deterministic_mode: true,
        error_injection: true,
        performance_simulation: true,
    }
}

impl Default for ProviderCapabilities {
    fn default() -> (r: Self)
        ensures
            r == mock_capabilities(),
    {
        ProviderCapabilities {
            hardware_keys: false,
            secure_storage: false,
            hardware_rng: false,
            side_channel_resistant: false,
            fips_compliant: false,
            deterministic_mode: true,
            error_injection: true,
            performance_simulation: true,
        }
    }
}

/// Provider configuration for test scenarios.
#[derive(Debug)]
pub struct ProviderConfig {
    pub enable_logging: bool,
    pub log_level: String,
    pub max_sessions: usize,
    /// Session timeout in seconds, if any.
    pub session_timeout_secs: Option<u64>,
    pub enable_threading: bool,
    pub mock_config: MockConfig,
}

impl Default for ProviderConfig {
    /// Logging at `info`, 1024 sessions, a one-hour timeout, threading, and the
    /// default mock configuration.
    fn default() -> (r: Self)
        ensures
            r.enable_logging,
            r.log_level@ == "info"@,
            r.max_sessions == 1024,
            r.session_timeout_secs == Some(3600u64),
            r.enable_threading,
            r.mock_config@ == MockConfig::spec_default_view(),
    {
        ProviderConfig {
            enable_logging: true,
            log_level: String::from_str("info"),
            max_sessions: 1024,
            session_timeout_secs: Some(3600),
            enable_threading: true,
            mock_config: MockConfig::default(),
        }
    }
}

/// Key sizes (bits) the mock provider offers for each algorithm.
pub open spec fn mock_key_size(a: KeyAlgorithm) -> Option<usize> {
    match a {
        KeyAlgorithm::Rsa2048 => Some(2048),
        KeyAlgorithm::Rsa3072 => Some(3072),
        KeyAlgorithm::Rsa4096 => Some(4096),
        KeyAlgorithm::EcdsaP256 => Some(256),
        KeyAlgorithm::EcdsaP384 => Some(384),
        KeyAlgorithm::Aes256 => Some(256),
        _ => None,
    }
}

/// The key size the mock provider offers for `a`.
fn key_size_for(a: KeyAlgorithm) -> (r: Option<usize>)
    ensures
        r == mock_key_size(a),
{
    match a {
        KeyAlgorithm::Rsa2048 => Some(2048),
        KeyAlgorithm::Rsa3072 => Some(3072),
        KeyAlgorithm::Rsa4096 => Some(4096),
        KeyAlgorithm::EcdsaP256 => Some(256),
        KeyAlgorithm::EcdsaP384 => Some(384),
        KeyAlgorithm::Aes256 => Some(256),
        _ => None,
    }
}

/// The mock PKCS#11 provider.
#[derive(Debug)]
pub struct MockProvider {
    pub backend: MockBackend,
}

impl MockProvider {
    /// A provider over `backend`.
    pub fn new(backend: MockBackend) -> (r: Self)
        ensures
            r.backend == backend,
    {
        MockProvider { backend }
    }

    /// A provider over a mock backend with `config`.
    pub fn with_config(config: MockConfig) -> (r: Result<Self, ProviderError>)
        ensures
            r matches Ok(p) && p.backend.config@ == config@,
    {
        match MockBackend::with_config(config) {
            Ok(backend) => Ok(MockProvider::new(backend)),
            Err(e) => Err(ProviderError::BackendError(e)),
        }
    }

    /// The backend.
    pub fn backend(&self) -> (r: &MockBackend)
        ensures
            *r == self.backend,
    {
        &self.backend
    }

    /// The provider information.
    pub fn info(&self) -> (r: ProviderInfo)
        ensures
            r.name@ == "Mock PKCS#11 Provider"@,
            r.version@ == "1.0.0"@,
            r.description@ == "Complete PKCS#11 provider with mock cryptographic backend for testing"@,
            r.vendor@ == "Mock Crypto Inc."@,
    {
        ProviderInfo {
            name: String::from_str("Mock PKCS#11 Provider"),
            version: String::from_str("1.0.0"),
            description: String::from_str("Complete PKCS#11 provider with mock cryptographic backend for testing"),
            vendor: String::from_str("Mock Crypto Inc."),
        }
    }

    /// Initialization always succeeds.
    pub fn initialize(&self) -> (r: Result<(), ProviderError>)
        ensures
            r is Ok,
    {
        Ok(())
    }

    /// Finalization always succeeds.
    pub fn finalize(&self) -> (r: Result<(), ProviderError>)
        ensures
            r is Ok,
    {
        Ok(())
    }

    /// Whether the backend supports `mechanism`.
    pub fn supports_mechanism(&self, mechanism: &Mechanism) -> (r: bool)
        ensures
            r == mock_supports(*mechanism),
    {
        self.backend.supports_mechanism(mechanism)
    }

    /// The backend's mechanisms.
    pub fn supported_mechanisms(&self) -> (r: Vec<Mechanism>)
        ensures
            r@.len() == 9,
            forall|i: int| 0 <= i < r@.len() ==> mock_supports(#[trigger] r@[i]),
    {
        self.backend.supported_mechanisms()
    }

    /// The backend's key algorithms.
    pub fn supported_key_algorithms(&self) -> (r: Vec<KeyAlgorithm>)
        ensures
            r@ == seq![
                KeyAlgorithm::Rsa2048,
                KeyAlgorithm::Rsa3072,
                KeyAlgorithm::Rsa4096,
                KeyAlgorithm::EcdsaP256,
                KeyAlgorithm::EcdsaP384,
                KeyAlgorithm::Aes256,
            ],
    {
        self.backend.supported_key_algorithms()
    }

    /// A configuration update is accepted and has no effect.
    pub fn update_config(&self, config: MockConfig) -> (r: Result<(), ProviderError>)
        ensures
            r is Ok,
    {
        Ok(())
    }

    /// A request to enable error injection is accepted and has no effect.
    pub fn enable_error_injection(&self, operations: Vec<String>) -> (r: Result<(), ProviderError>)
        ensures
            r is Ok,
    {
        Ok(())
    }

    /// A request to disable error injection is accepted and has no effect.
    pub fn disable_error_injection(&self) -> (r: Result<(), ProviderError>)
        ensures
            r is Ok,
    {
        Ok(())
    }

    /// A request to change the deterministic mode is accepted and has no
    /// effect.
    pub fn set_deterministic_mode(&self, enabled: bool) -> (r: Result<(), ProviderError>)
        ensures
            r is Ok,
    {
        Ok(())
    }

    /// The provider capabilities.
    pub fn capabilities(&self) -> (r: ProviderCapabilities)
        ensures
            r == mock_capabilities(),
    {
        ProviderCapabilities::default()
    }

    /// The provider may be used from several threads.
    pub fn is_thread_safe(&self) -> (r: bool)
        ensures
            r,
    {
        true
    }

    /// At most 1024 sessions.
    pub fn max_sessions(&self) -> (r: Option<usize>)
        ensures
            r == Some(1024usize),
    {
        Some(1024)
    }

    /// The largest key size of `algorithm`, in bits.
    pub fn max_key_size(&self, algorithm: KeyAlgorithm) -> (r: Option<usize>)
        ensures
            r == mock_key_size(algorithm),
    {
        key_size_for(algorithm)
    }

    /// The smallest key size of `algorithm`, in bits.
    pub fn min_key_size(&self, algorithm: KeyAlgorithm) -> (r: Option<usize>)
        ensures
            r == mock_key_size(algorithm),
    {
        key_size_for(algorithm)
    }

    /// A provider over a mock backend with the configuration's mock settings.
    pub fn with_provider_config(config: ProviderConfig) -> (r: Result<Self, ProviderError>)
        ensures
            r matches Ok(p) && p.backend.config@ == config.mock_config@,
    {
        match MockBackend::with_config(config.mock_config) {
            Ok(backend) => Ok(MockProvider::new(backend)),
            Err(e) => Err(ProviderError::BackendError(e)),
        }
    }

    /// The current configuration: the fixed provider settings and the
    /// backend's mock configuration.
    pub fn config(&self) -> (r: ProviderConfig)
        ensures
            r.enable_logging,
            r.log_level@ == "info"@,
            r.max_sessions == 1024,
            r.session_timeout_secs == Some(3600u64),
            r.enable_threading,
            r.mock_config@ == self.backend.config@,
    {
        ProviderConfig {
            enable_logging: true,
            log_level: String::from_str("info"),
            max_sessions: 1024,
            session_timeout_secs: Some(3600),
            enable_threading: true,
            mock_config: self.backend.config().clone(),
        }
    }

    /// A provider for deterministic testing.
    pub fn deterministic() -> (r: Result<Self, ProviderError>)
        ensures
            r matches Ok(p) && p.backend.config@ == MockConfig::spec_default_view(),
    {
        MockProvider::with_config(MockConfig::deterministic())
    }

    /// A provider whose backend always fails the given operations.
    pub fn with_error_injection(operations: Vec<String>) -> (r: Result<Self, ProviderError>)
        ensures
            r matches Ok(p) && p.backend.config.deterministic && (p.backend.config.error_injection matches Some(e)
                && e@ == (true, names_view(operations@), 1_000_000u32, seq!["MockError"@])),
    {
        MockProvider::with_config(MockConfig::with_error_injection(operations))
    }

    /// A provider whose backend delays the given operations (milliseconds).
    pub fn with_performance_simulation(delays: Vec<(String, u64)>) -> (r: Result<Self, ProviderError>)
        ensures
            r matches Ok(p) && p.backend.config.deterministic && p.backend.config.error_injection is None
                && (p.backend.config.performance_simulation matches Some(ps) && ps@.0 && ps@.1 == delays_view(
                delays@,
            )),
    {
        MockProvider::with_config(MockConfig::with_performance_simulation(delays))
    }
}

} // verus!
