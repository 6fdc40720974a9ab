//! Test scenarios, test data factories and test vectors for the mock.

use vstd::prelude::*;
use crate::mock::config::{
    DEFAULT_SEED, ErrorInjectionConfig, MockConfig, MockDataGenerator, PerformanceSimulationConfig,
    curve_key_len, names_view, seeded_bytes, signature_len, slice_to_vec_bytes, symmetric_key_len,
};
use crate::mock::context::{xor_cycle, xor_with_key};
use crate::mock::provider::{MockProvider, ProviderError};

verus! {

/// Builder of mock configurations for test scenarios.
#[derive(Debug)]
pub struct TestScenarioBuilder {
    pub config: MockConfig,
}

impl TestScenarioBuilder {
    /// A builder starting from the default configuration.
    pub fn new() -> (r: Self)
        ensures
            r.config@ == MockConfig::spec_default_view(),
    {
        TestScenarioBuilder { config: MockConfig::default() }
    }

    /// Set the deterministic mode.
    pub fn deterministic(self, enabled: bool) -> (r: Self)
        ensures
            r.config@ == (enabled, self.config@.1, self.config@.2),
    {
        let mut b = self;
        b.config.deterministic = enabled;
        b
    }

    /// Inject errors into the given operations with the given probability (in
    /// millionths).
    pub fn with_error_injection(self, operations: Vec<String>, probability_ppm: u32) -> (r: Self)
        ensures
            r.config@ == (self.config@.0, Some((true, names_view(operations@), probability_ppm, seq!["MockError"@])), self.config@.2),
    {
        let mut b = self;
        let mut error_types: Vec<String> = Vec::new();
        error_types.push(String::from_str("MockError"));
        let ghost types = error_types@;
        b.config.error_injection = Some(ErrorInjectionConfig {
            enabled: true,
            operations,
            probability_ppm,
            error_types,
        });
        proof {
            assert(names_view(types) =~= seq!["MockError"@]);
        }
        b
    }

    /// Delay the given operations (milliseconds).
    pub fn with_performance_delays(self, delays: Vec<(String, u64)>) -> (r: Self)
        ensures
            r.config@ == (self.config@.0, self.config@.1, Some((true, crate::mock::config::delays_view(delays@), None::<crate::mock::config::CpuSimulationConfig>, None::<crate::mock::config::MemorySimulationConfig>))),
    {
        let mut b = self;
        b.config.performance_simulation = Some(PerformanceSimulationConfig {
            enabled: true,
            operation_delays: delays,
            cpu_simulation: None,
            memory_simulation: None,
        });
        b
    }

    /// The configuration built.
    pub fn build(self) -> (r: MockConfig)
        ensures
            r@ == self.config@,
    {
        self.config
    }
}

impl Default for TestScenarioBuilder {
    fn default() -> (r: Self)
        ensures
            r.config@ == MockConfig::spec_default_view(),
    {
        TestScenarioBuilder::new()
    }
}

/// A list of operation names.
fn names(list: &[&str]) -> (r: Vec<String>)
    ensures
        r@.len() == list@.len(),
        forall|i: int| 0 <= i < list@.len() ==> #[trigger] r@[i]@ == list@[i]@,
{
    let mut v: Vec<String> = Vec::new();
    let mut i: usize = 0;
    while i < list.len()
        invariant
            0 <= i <= list@.len(),
            v@.len() == i,
            forall|j: int| 0 <= j < i ==> #[trigger] v@[j]@ == list@[j]@,
        decreases list@.len() - i,
    {
        v.push(String::from_str(list[i]));
        i = i + 1;
    }
    v
}

/// Predefined test scenarios.
#[derive(Debug)]
pub struct TestScenarios;

impl TestScenarios {
    /// Deterministic, nothing else: for unit tests.
    pub fn basic_deterministic() -> (r: MockConfig)
        ensures
            r@ == MockConfig::spec_default_view(),
    {
        TestScenarioBuilder::new().deterministic(true).build()
    }

    /// Deterministic, with a one-in-two error rate on key generation, one-shot
    /// signing and one-shot verification.
    pub fn error_injection() -> (r: MockConfig)
        ensures
            r.deterministic,
            r.performance_simulation is None,
            r.error_injection matches Some(e) && e@.0 && e@.2 == 500_000 && e@.1 == seq![
                "generate_keypair"@,
                "sign_oneshot"@,
                "verify_oneshot"@,
            ],
    {
        let ops = names(&["generate_keypair", "sign_oneshot", "verify_oneshot"]);
        let r = TestScenarioBuilder::new().deterministic(true).with_error_injection(ops, 500_000).build();
        proof {
            let e = r.error_injection.unwrap();
            assert(e@.1 =~= seq!["generate_keypair"@, "sign_oneshot"@, "verify_oneshot"@]);
        }
        r
    }

    /// Deterministic, with delays: key pair generation 100 ms, one-shot signing
    /// 10 ms, one-shot verification 5 ms, digest finalization 2 ms.
    pub fn performance_testing() -> (r: MockConfig)
        ensures
            r.deterministic,
            r.error_injection is None,
            r.performance_simulation matches Some(p) && p@.0 && p@.1 == seq![
                ("generate_keypair"@, 100u64),
                ("sign_oneshot"@, 10u64),
                ("verify_oneshot"@, 5u64),
                ("digest_finalize"@, 2u64),
            ],
    {
        let mut delays: Vec<(String, u64)> = Vec::new();
        delays.push((String::from_str("generate_keypair"), 100));
        delays.push((String::from_str("sign_oneshot"), 10));
        delays.push((String::from_str("verify_oneshot"), 5));
        delays.push((String::from_str("digest_finalize"), 2));
        let ghost d = delays@;
        let r = TestScenarioBuilder::new().deterministic(true).with_performance_delays(delays).build();
        proof {
            assert(crate::mock::config::delays_view(d) =~= seq![
                ("generate_keypair"@, 100u64),
                ("sign_oneshot"@, 10u64),
                ("verify_oneshot"@, 5u64),
                ("digest_finalize"@, 2u64),
            ]);
        }
        r
    }

    /// Random behavior with a one-in-ten error rate on key generation and the
    /// one-shot operations.
    pub fn stress_testing() -> (r: MockConfig)
        ensures
            !r.deterministic,
            r.performance_simulation is None,
            r.error_injection matches Some(e) && e@.0 && e@.2 == 100_000 && e@.1 == seq![
                "generate_keypair"@,
                "generate_key"@,
                "sign_oneshot"@,
                "verify_oneshot"@,
                "encrypt_oneshot"@,
                "decrypt_oneshot"@,
            ],
    {
        let ops = names(
            &[
                "generate_keypair",
                "generate_key",
                "sign_oneshot",
                "verify_oneshot",
                "encrypt_oneshot",
                "decrypt_oneshot",
            ],
        );
        let r = TestScenarioBuilder::new().deterministic(false).with_error_injection(ops, 100_000).build();
        proof {
            let e = r.error_injection.unwrap();
            assert(e@.1 =~= seq![
                "generate_keypair"@,
                "generate_key"@,
                "sign_oneshot"@,
                "verify_oneshot"@,
                "encrypt_oneshot"@,
                "decrypt_oneshot"@,
            ]);
        }
        r
    }

    /// Deterministic, nothing else: for continuous integration.
    pub fn ci_cd() -> (r: MockConfig)
        ensures
            r@ == MockConfig::spec_default_view(),
    {
        TestScenarioBuilder::new().deterministic(true).build()
    }
}

/// RSA test data.
#[derive(Debug, Clone)]
pub struct RsaTestData {
    pub key_size: usize,
    pub private_key: Vec<u8>,
    pub public_key: Vec<u8>,
    pub message: Vec<u8>,
    pub signature: Vec<u8>,
}

/// ECDSA test data.
#[derive(Debug, Clone)]
pub struct EcdsaTestData {
    pub curve: String,
    pub private_key: Vec<u8>,
    pub public_key: Vec<u8>,
    pub message: Vec<u8>,
    pub signature: Vec<u8>,
}

/// Symmetric test data.
#[derive(Debug, Clone)]
pub struct SymmetricTestData {
    pub algorithm: String,
    pub key: Vec<u8>,
    pub plaintext: Vec<u8>,
    pub ciphertext: Vec<u8>,
}

/// Certificate test data.
#[derive(Debug, Clone)]
pub struct CertificateTestData {
    pub subject: String,
    pub issuer: String,
    pub serial_number: Vec<u8>,
    pub der_data: Vec<u8>,
    pub public_key: Vec<u8>,
}

/// The bytes of an ASCII string.
pub open spec fn ascii_bytes(s: Seq<char>) -> Seq<u8> {
    s.map_values(|c: char| c as u8)
}

/// Factory of test data.
#[derive(Debug)]
pub struct MockDataFactory {
    pub generator: MockDataGenerator,
}

impl MockDataFactory {
    /// A factory over a generator with `config` and the default seed.
    pub fn new(config: MockConfig) -> (r: Self)
        ensures
            r.generator.config@ == config@,
            r.generator.seed == DEFAULT_SEED,
    {
        MockDataFactory { generator: MockDataGenerator::new(config) }
    }

    /// A deterministic factory.
    pub fn deterministic() -> (r: Self)
        ensures
            r.generator.config.deterministic,
            r.generator.seed == DEFAULT_SEED,
    {
        MockDataFactory::new(MockConfig::deterministic())
    }

    /// RSA test data: a key pair of `key_size` bits, the message
    /// `Hello, RSA World!` and a 256-byte signature.
    pub fn rsa_test_data(&self, key_size: usize) -> (r: RsaTestData)
        ensures
            r.key_size == key_size,
            r.private_key@.len() == key_size / 8,
            r.public_key@.len() == key_size / 8,
            r.message@ == ascii_bytes("Hello, RSA World!"@),
            r.signature@.len() == 256,
            self.generator.config.deterministic ==> r.private_key@ == self.generator.spec_data((key_size / 8) as nat)
                && r.public_key@ == self.generator.spec_data((key_size / 8) as nat) && r.signature@
                == self.generator.spec_data(256),
    {
        let keypair = self.generator.generate_rsa_keypair(key_size);
        proof {
            reveal_strlit("Hello, RSA World!");
            reveal_strlit("RSA-PKCS1-SHA256");
        }
        let message = slice_to_vec_bytes("Hello, RSA World!");
        let signature = self.generator.generate_signature("RSA-PKCS1-SHA256", message.as_slice());
        RsaTestData {
            key_size,
            private_key: keypair.private_key,
            public_key: keypair.public_key,
            message,
            signature: signature.signature,
        }
    }

    /// ECDSA test data on `curve`: a key pair, the message
    /// `Hello, ECDSA World!` and a 64-byte signature.
    pub fn ecdsa_test_data(&self, curve: &str) -> (r: EcdsaTestData)
        ensures
            r.curve@ == curve@,
            r.private_key@.len() == curve_key_len(curve@),
            r.public_key@.len() == 2 * curve_key_len(curve@),
            r.message@ == ascii_bytes("Hello, ECDSA World!"@),
            r.signature@.len() == 64,
            self.generator.config.deterministic ==> r.private_key@ == self.generator.spec_data(curve_key_len(curve@))
                && r.public_key@ == self.generator.spec_data(2 * curve_key_len(curve@)) && r.signature@
                == self.generator.spec_data(64),
    {
        let keypair = self.generator.generate_ecdsa_keypair(curve);
        proof {
            reveal_strlit("Hello, ECDSA World!");
            reveal_strlit("ECDSA-SHA256");
            reveal_strlit("RSA-PKCS1-SHA256");
            assert("ECDSA-SHA256"@.len() != "RSA-PKCS1-SHA256"@.len());
        }
        let message = slice_to_vec_bytes("Hello, ECDSA World!");
        let signature = self.generator.generate_signature("ECDSA-SHA256", message.as_slice());
        EcdsaTestData {
            curve: String::from_str(curve),
            private_key: keypair.private_key,
            public_key: keypair.public_key,
            message,
            signature: signature.signature,
        }
    }

    /// Symmetric test data for `algorithm`: a key, the plaintext
    /// `Hello, Symmetric World!` and its XOR with the key.
    pub fn symmetric_test_data(&self, algorithm: &str) -> (r: SymmetricTestData)
        ensures
            r.algorithm@ == algorithm@,
            r.key@.len() == symmetric_key_len(algorithm@),
            r.plaintext@ == ascii_bytes("Hello, Symmetric World!"@),
            r.ciphertext@ == xor_cycle(r.plaintext@, r.key@),
            self.generator.config.deterministic ==> r.key@ == self.generator.spec_data(symmetric_key_len(algorithm@)),
    {
        let key = self.generator.generate_symmetric_key(algorithm);
        proof {
            reveal_strlit("Hello, Symmetric World!");
        }
        let plaintext = slice_to_vec_bytes("Hello, Symmetric World!");
        let ciphertext = self.mock_encrypt(plaintext.as_slice(), key.key_data.as_slice());
        SymmetricTestData { algorithm: String::from_str(algorithm), key: key.key_data, plaintext, ciphertext }
    }

    /// Certificate test data for `subject`.
    pub fn certificate_test_data(&self, subject: &str) -> (r: CertificateTestData)
        ensures
            r.subject@ == subject@,
            r.issuer@ == "CN=Mock CA"@,
            r.serial_number@.len() == 8,
            r.der_data@.len() == 512,
            r.public_key@.len() == 64,
            self.generator.config.deterministic ==> r.serial_number@ == self.generator.spec_data(8) && r.der_data@
                == self.generator.spec_data(512) && r.public_key@ == self.generator.spec_data(64),
    {
        let cert = self.generator.generate_certificate(subject);
        CertificateTestData {
            subject: cert.subject,
            issuer: cert.issuer,
            serial_number: cert.serial_number,
            der_data: cert.der_data,
            public_key: cert.public_key,
        }
    }

    /// XOR of `data` with the key repeated.
    pub fn mock_encrypt(&self, data: &[u8], key: &[u8]) -> (r: Vec<u8>)
        requires
            key@.len() > 0 || data@.len() == 0,
        ensures
            r@ == xor_cycle(data@, key@),
    {
        xor_with_key(data, key)
    }
}

/// A collection of test vectors.
#[derive(Debug, Clone)]
pub struct TestVectorCollection {
    pub rsa_vectors: Vec<RsaTestData>,
    pub ecdsa_vectors: Vec<EcdsaTestData>,
    pub symmetric_vectors: Vec<SymmetricTestData>,
    pub certificate_vectors: Vec<CertificateTestData>,
}

impl TestVectorCollection {
    /// Deterministic vectors: RSA 2048, 3072 and 4096; ECDSA P-256 and P-384;
    /// AES-128, AES-192 and AES-256; three certificates.
    pub fn comprehensive() -> (r: Self)
        ensures
            r.rsa_vectors@.len() == 3,
            r.rsa_vectors@[0].key_size == 2048,
            r.rsa_vectors@[1].key_size == 3072,
            r.rsa_vectors@[2].key_size == 4096,
            forall|i: int| 0 <= i < 3 ==> (#[trigger] r.rsa_vectors@[i]).private_key@ == seeded_bytes(
                DEFAULT_SEED as int,
                (r.rsa_vectors@[i].key_size / 8) as nat,
            ),
            r.ecdsa_vectors@.len() == 2,
            r.ecdsa_vectors@[0].curve@ == "P-256"@,
            r.ecdsa_vectors@[1].curve@ == "P-384"@,
            r.ecdsa_vectors@[0].private_key@ == seeded_bytes(DEFAULT_SEED as int, 32),
            r.ecdsa_vectors@[1].private_key@ == seeded_bytes(DEFAULT_SEED as int, 48),
            r.ecdsa_vectors@[0].public_key@ == seeded_bytes(DEFAULT_SEED as int, 64),
            r.ecdsa_vectors@[1].public_key@ == seeded_bytes(DEFAULT_SEED as int, 96),
            r.ecdsa_vectors@[0].public_key@.len() == 64,
            r.ecdsa_vectors@[1].public_key@.len() == 96,
            r.ecdsa_vectors@[0].signature@.len() == 64,
            r.ecdsa_vectors@[1].signature@.len() == 64,
            r.symmetric_vectors@.len() == 3,
            r.symmetric_vectors@[0].algorithm@ == "AES-128"@,
            r.symmetric_vectors@[1].algorithm@ == "AES-192"@,
            r.symmetric_vectors@[2].algorithm@ == "AES-256"@,
            r.symmetric_vectors@[0].key@ == seeded_bytes(DEFAULT_SEED as int, 16),
            r.symmetric_vectors@[1].key@ == seeded_bytes(DEFAULT_SEED as int, 24),
            r.symmetric_vectors@[2].key@ == seeded_bytes(DEFAULT_SEED as int, 32),
            r.certificate_vectors@.len() == 3,
            r.certificate_vectors@[0].subject@ == "CN=Test Certificate 1"@,
            r.certificate_vectors@[1].subject@ == "CN=Test Certificate 2"@,
            r.certificate_vectors@[2].subject@ == "CN=Test CA Certificate"@,
    {
        let factory = MockDataFactory::deterministic();
        let mut rsa_vectors: Vec<RsaTestData> = Vec::new();
        rsa_vectors.push(factory.rsa_test_data(2048));
        rsa_vectors.push(factory.rsa_test_data(3072));
        rsa_vectors.push(factory.rsa_test_data(4096));
        proof {
            reveal_strlit("P-256");
            reveal_strlit("P-384");
            reveal_strlit("P-521");
            reveal_strlit("AES-128");
            reveal_strlit("AES-192");
            reveal_strlit("AES-256");
            assert("P-384"@[2] != "P-256"@[2]);
            assert("AES-192"@[5] != "AES-128"@[5]);
            assert("AES-256"@[4] != "AES-128"@[4]);
            assert("AES-256"@[4] != "AES-192"@[4]);
        }
        let mut ecdsa_vectors: Vec<EcdsaTestData> = Vec::new();
        ecdsa_vectors.push(factory.ecdsa_test_data("P-256"));
        ecdsa_vectors.push(factory.ecdsa_test_data("P-384"));
        let mut symmetric_vectors: Vec<SymmetricTestData> = Vec::new();
        symmetric_vectors.push(factory.symmetric_test_data("AES-128"));
        symmetric_vectors.push(factory.symmetric_test_data("AES-192"));
        symmetric_vectors.push(factory.symmetric_test_data("AES-256"));
        let mut certificate_vectors: Vec<CertificateTestData> = Vec::new();
        certificate_vectors.push(factory.certificate_test_data("CN=Test Certificate 1"));
        certificate_vectors.push(factory.certificate_test_data("CN=Test Certificate 2"));
        certificate_vectors.push(factory.certificate_test_data("CN=Test CA Certificate"));
        TestVectorCollection { rsa_vectors, ecdsa_vectors, symmetric_vectors, certificate_vectors }
    }
}

/// A deterministic mock provider.
pub fn create_test_provider() -> (r: Result<MockProvider, ProviderError>)
    ensures
        r matches Ok(p) && p.backend.config@ == MockConfig::spec_default_view(),
{
    MockProvider::deterministic()
}

/// A mock provider that fails the given operations.
pub fn create_error_injection_provider(operations: Vec<String>) -> (r: Result<MockProvider, ProviderError>)
    ensures
        r matches Ok(p) && (p.backend.config.error_injection matches Some(e) && e@.0 && e@.1 == names_view(
            operations@,
        )),
{
    MockProvider::with_error_injection(operations)
}

/// A mock provider that delays the given operations (milliseconds).
pub fn create_performance_provider(delays: Vec<(String, u64)>) -> (r: Result<MockProvider, ProviderError>)
    ensures
        r matches Ok(p) && (p.backend.config.performance_simulation matches Some(ps) && ps@.0 && ps@.1
            == crate::mock::config::delays_view(delays@)),
{
    MockProvider::with_performance_simulation(delays)
}

/// Asserts that two byte strings are equal, in length and content. The
/// assertion is a precondition: a caller must show the two strings equal.
pub fn assert_bytes_equal(expected: &[u8], actual: &[u8], message: &str)
    requires
        expected@ == actual@,
{
    proof {
        assert(expected@.len() == actual@.len());
    }
}

/// `size` bytes: byte `i` is `(seed + i) mod 256`.
pub fn generate_test_data(size: usize, seed: u8) -> (r: Vec<u8>)
    ensures
        r@ == seeded_bytes(seed as int, size as nat),
{
    crate::mock::config::seeded_or_random(true, seed as u64, size)
}

/// A test configuration: deterministic or not, and with errors always
/// injected into `test_operation` when asked.
pub fn create_test_config(deterministic: bool, error_injection: bool) -> (r: MockConfig)
    ensures
        r.deterministic == deterministic,
        r.performance_simulation is None,
        error_injection ==> (r.error_injection matches Some(e) && e@.0 && e@.2 == 1_000_000 && e@.1 == seq![
            "test_operation"@,
        ]),
        !error_injection ==> r.error_injection is None,
{
    let mut builder = TestScenarioBuilder::new().deterministic(deterministic);
    if error_injection {
        let ops = names(&["test_operation"]);
        builder = builder.with_error_injection(ops, 1_000_000);
        proof {
            assert(names_view(ops@) =~= seq!["test_operation"@]);
        }
    }
    builder.build()
}

} // verus!
