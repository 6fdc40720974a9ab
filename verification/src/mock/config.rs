//! Configuration of the mock backend: deterministic mode, error injection,
//! performance simulation and predefined test data.

use vstd::prelude::*;
use vstd::string::StringSliceAdditionalSpecFns;
use crate::rng::random_bytes;
use crate::text::str_is;

verus! {

/// The names of a list of strings.
pub open spec fn names_view(v: Seq<String>) -> Seq<Seq<char>> {
    v.map_values(|s: String| s@)
}

/// The view of a list of `(operation, delay in milliseconds)` pairs.
pub open spec fn delays_view(v: Seq<(String, u64)>) -> Seq<(Seq<char>, u64)> {
    v.map_values(|p: (String, u64)| (p.0@, p.1))
}

/// The delay listed first for `op`, if any.
pub open spec fn delay_lookup(v: Seq<(Seq<char>, u64)>, op: Seq<char>) -> Option<u64>
    decreases v.len(),
{
    if v.len() == 0 {
        None
    } else if v[0].0 == op {
        Some(v[0].1)
    } else {
        delay_lookup(v.drop_first(), op)
    }
}

/// Error injection: which operations fail with an injected error.
#[derive(Debug)]
pub struct ErrorInjectionConfig {
    /// Whether error injection is on.
    pub enabled: bool,
    /// Names of the operations that fail.
    pub operations: Vec<String>,
    /// Probability of an injected error, in millionths (1_000_000 is always).
    pub probability_ppm: u32,
    /// Names of the error kinds to inject.
    pub error_types: Vec<String>,
}

impl View for ErrorInjectionConfig {
    type V = (bool, Seq<Seq<char>>, u32, Seq<Seq<char>>);

    open spec fn view(&self) -> Self::V {
        (self.enabled, names_view(self.operations@), self.probability_ppm, names_view(self.error_types@))
    }
}

/// A copy of a list of strings.
pub fn copy_names(v: &Vec<String>) -> (r: Vec<String>)
    ensures
        r@ == v@,
{
    let mut out: Vec<String> = Vec::new();
    let mut i: usize = 0;
    while i < v.len()
        invariant
            0 <= i <= v@.len(),
            out@ == v@.subrange(0, i as int),
        decreases v@.len() - i,
    {
        out.push(v[i].clone());
        proof {
            assert(v@.subrange(0, i + 1) =~= v@.subrange(0, i as int).push(v@[i as int]));
        }
        i = i + 1;
    }
    proof {
        assert(v@.subrange(0, v@.len() as int) =~= v@);
    }
    out
}

/// A copy of a list of operation delays.
pub fn copy_delays(v: &Vec<(String, u64)>) -> (r: Vec<(String, u64)>)
    ensures
        r@ == v@,
{
    let mut out: Vec<(String, u64)> = Vec::new();
    let mut i: usize = 0;
    while i < v.len()
        invariant
            0 <= i <= v@.len(),
            out@ == v@.subrange(0, i as int),
        decreases v@.len() - i,
    {
        let name = v[i].0.clone();
        out.push((name, v[i].1));
        proof {
            assert(v@.subrange(0, i + 1) =~= v@.subrange(0, i as int).push(v@[i as int]));
        }
        i = i + 1;
    }
    proof {
        assert(v@.subrange(0, v@.len() as int) =~= v@);
    }
    out
}

impl Clone for ErrorInjectionConfig {
    fn clone(&self) -> (r: Self)
        ensures
            r@ == self@,
    {
        ErrorInjectionConfig {
            enabled: self.enabled,
            operations: copy_names(&self.operations),
            probability_ppm: self.probability_ppm,
            error_types: copy_names(&self.error_types),
        }
    }
}

impl Default for ErrorInjectionConfig {
    /// Disabled, no operations, a probability of one in ten, `MockError` kind.
    fn default() -> (r: Self)
        ensures
            !r.enabled,
            r.operations@.len() == 0,
            r.probability_ppm == 100_000,
            r.error_types@.len() == 1,
            r.error_types@[0]@ == "MockError"@,
    {
        let mut error_types: Vec<String> = Vec::new();
        error_types.push(String::from_str("MockError"));
        ErrorInjectionConfig { enabled: false, operations: Vec::new(), probability_ppm: 100_000, error_types }
    }
}

/// CPU usage simulation.
#[derive(Debug, Clone, Copy, PartialEq, Eq, Structural)]
pub struct CpuSimulationConfig {
    pub enabled: bool,
    /// CPU usage in hundredths of a percent (10_000 is full use).
    pub usage_basis_points: u32,
    /// Duration of the simulation in milliseconds.
    pub duration_ms: u64,
}

/// Memory usage simulation.
#[derive(Debug, Clone, Copy, PartialEq, Eq, Structural)]
pub struct MemorySimulationConfig {
    pub enabled: bool,
    /// Size of the allocation in bytes.
    pub allocation_size: usize,
    /// How long the allocation is held, in milliseconds.
    pub duration_ms: u64,
}

/// Performance simulation: a delay per operation.
#[derive(Debug)]
pub struct PerformanceSimulationConfig {
    pub enabled: bool,
    /// Delay of each operation, in milliseconds; the first entry of a name counts.
    pub operation_delays: Vec<(String, u64)>,
    pub cpu_simulation: Option<CpuSimulationConfig>,
    pub memory_simulation: Option<MemorySimulationConfig>,
}

impl View for PerformanceSimulationConfig {
    type V = (bool, Seq<(Seq<char>, u64)>, Option<CpuSimulationConfig>, Option<MemorySimulationConfig>);

    open spec fn view(&self) -> Self::V {
        (self.enabled, delays_view(self.operation_delays@), self.cpu_simulation, self.memory_simulation)
    }
}

impl Clone for PerformanceSimulationConfig {
    fn clone(&self) -> (r: Self)
        ensures
            r@ == self@,
    {
        PerformanceSimulationConfig {
            enabled: self.enabled,
            operation_delays: copy_delays(&self.operation_delays),
            cpu_simulation: self.cpu_simulation,
            memory_simulation: self.memory_simulation,
        }
    }
}

impl Default for PerformanceSimulationConfig {
    /// Disabled, with no delays.
    fn default() -> (r: Self)
        ensures
            !r.enabled,
            r.operation_delays@.len() == 0,
            r.cpu_simulation is None,
            r.memory_simulation is None,
    {
        PerformanceSimulationConfig {
            enabled: false,
            operation_delays: Vec::new(),
            cpu_simulation: None,
            memory_simulation: None,
        }
    }
}

/// RSA key test data.
#[derive(Debug)]
pub struct RsaKeyData {
    pub size: usize,
    pub public_exponent: Vec<u8>,
    pub private_key: Vec<u8>,
    pub public_key: Vec<u8>,
}

/// ECDSA key test data.
#[derive(Debug)]
pub struct EcdsaKeyData {
    pub curve: String,
    pub private_key: Vec<u8>,
    pub public_key: Vec<u8>,
}

/// Symmetric key test data.
#[derive(Debug)]
pub struct SymmetricKeyData {
    pub algorithm: String,
    pub key_data: Vec<u8>,
}

/// X.509 certificate test data.
#[derive(Debug)]
pub struct X509CertData {
    pub subject: String,
    pub issuer: String,
    pub serial_number: Vec<u8>,
    pub not_before: String,
    pub not_after: String,
    pub public_key: Vec<u8>,
    pub der_data: Vec<u8>,
}

/// Signature test data.
#[derive(Debug)]
pub struct SignatureData {
    pub algorithm: String,
    pub data: Vec<u8>,
    pub signature: Vec<u8>,
}

/// `n` copies of the byte `b`.
pub open spec fn filled(b: u8, n: nat) -> Seq<u8> {
    Seq::new(n, |i: int| b)
}

/// Predefined key test data, by name.
#[derive(Debug)]
pub struct KeyTestData {
    pub rsa_keys: Vec<(String, RsaKeyData)>,
    pub ecdsa_keys: Vec<(String, EcdsaKeyData)>,
    pub symmetric_keys: Vec<(String, SymmetricKeyData)>,
}

impl Default for KeyTestData {
    /// One RSA-2048 key, one P-256 key and one AES-256 key.
    fn default() -> (r: Self)
        ensures
            r.rsa_keys@.len() == 1,
            r.rsa_keys@[0].0@ == "test_rsa_2048"@,
            r.rsa_keys@[0].1.size == 2048,
            r.rsa_keys@[0].1.public_exponent@ == seq![1u8, 0u8, 1u8],
            r.rsa_keys@[0].1.private_key@ == filled(0x42, 256),
            r.rsa_keys@[0].1.public_key@ == filled(0x43, 256),
            r.ecdsa_keys@.len() == 1,
            r.ecdsa_keys@[0].0@ == "test_ecdsa_p256"@,
            r.ecdsa_keys@[0].1.curve@ == "P-256"@,
            r.ecdsa_keys@[0].1.private_key@ == filled(0x44, 32),
            r.ecdsa_keys@[0].1.public_key@ == filled(0x45, 64),
            r.symmetric_keys@.len() == 1,
            r.symmetric_keys@[0].0@ == "test_aes_256"@,
            r.symmetric_keys@[0].1.algorithm@ == "AES-256"@,
            r.symmetric_keys@[0].1.key_data@ == filled(0x46, 32),
    {
        let mut exponent: Vec<u8> = Vec::new();
        exponent.push(0x01);
        exponent.push(0x00);
        exponent.push(0x01);
        let rsa = RsaKeyData {
            size: 2048,
            public_exponent: exponent,
            private_key: vec![0x42u8; 256],
            public_key: vec![0x43u8; 256],
        };
        let ecdsa = EcdsaKeyData {
            curve: String::from_str("P-256"),
            private_key: vec![0x44u8; 32],
            public_key: vec![0x45u8; 64],
        };
        let sym = SymmetricKeyData { algorithm: String::from_str("AES-256"), key_data: vec![0x46u8; 32] };
        let mut rsa_keys: Vec<(String, RsaKeyData)> = Vec::new();
        rsa_keys.push((String::from_str("test_rsa_2048"), rsa));
        let mut ecdsa_keys: Vec<(String, EcdsaKeyData)> = Vec::new();
        ecdsa_keys.push((String::from_str("test_ecdsa_p256"), ecdsa));
        let mut symmetric_keys: Vec<(String, SymmetricKeyData)> = Vec::new();
        symmetric_keys.push((String::from_str("test_aes_256"), sym));
        proof {
            assert(rsa_keys@[0].1.private_key@ =~= filled(0x42, 256));
            assert(rsa_keys@[0].1.public_key@ =~= filled(0x43, 256));
            assert(ecdsa_keys@[0].1.private_key@ =~= filled(0x44, 32));
            assert(ecdsa_keys@[0].1.public_key@ =~= filled(0x45, 64));
            assert(symmetric_keys@[0].1.key_data@ =~= filled(0x46, 32));
        }
        KeyTestData { rsa_keys, ecdsa_keys, symmetric_keys }
    }
}

/// Predefined certificate test data, by name.
#[derive(Debug)]
pub struct CertificateTestData {
    pub x509_certificates: Vec<(String, X509CertData)>,
}

impl Default for CertificateTestData {
    /// One test certificate named `test_cert`.
    fn default() -> (r: Self)
        ensures
            r.x509_certificates@.len() == 1,
            r.x509_certificates@[0].0@ == "test_cert"@,
            r.x509_certificates@[0].1.subject@ == "CN=Test Certificate"@,
            r.x509_certificates@[0].1.issuer@ == "CN=Test CA"@,
            r.x509_certificates@[0].1.serial_number@ == seq![1u8, 2u8, 3u8, 4u8],
            r.x509_certificates@[0].1.not_before@ == "2023-01-01T00:00:00Z"@,
            r.x509_certificates@[0].1.not_after@ == "2024-01-01T00:00:00Z"@,
            r.x509_certificates@[0].1.public_key@ == filled(0x47, 64),
            r.x509_certificates@[0].1.der_data@ == filled(0x48, 512),
    {
        let mut serial: Vec<u8> = Vec::new();
        serial.push(0x01);
        serial.push(0x02);
        serial.push(0x03);
        serial.push(0x04);
        let cert = X509CertData {
            subject: String::from_str("CN=Test Certificate"),
            issuer: String::from_str("CN=Test CA"),
            serial_number: serial,
            not_before: String::from_str("2023-01-01T00:00:00Z"),
            not_after: String::from_str("2024-01-01T00:00:00Z"),
            public_key: vec![0x47u8; 64],
            der_data: vec![0x48u8; 512],
        };
        let mut x509_certificates: Vec<(String, X509CertData)> = Vec::new();
        x509_certificates.push((String::from_str("test_cert"), cert));
        proof {
            assert(x509_certificates@[0].1.public_key@ =~= filled(0x47, 64));
            assert(x509_certificates@[0].1.der_data@ =~= filled(0x48, 512));
        }
        CertificateTestData { x509_certificates }
    }
}

/// Predefined signature test data, by name.
#[derive(Debug)]
pub struct SignatureTestData {
    pub known_signatures: Vec<(String, SignatureData)>,
}

impl Default for SignatureTestData {
    /// One signature named `test_signature` over `Hello, World!`.
    fn default() -> (r: Self)
        ensures
            r.known_signatures@.len() == 1,
            r.known_signatures@[0].0@ == "test_signature"@,
            r.known_signatures@[0].1.algorithm@ == "RSA-PKCS1-SHA256"@,
            r.known_signatures@[0].1.data@ == "Hello, World!"@.map_values(|c: char| c as u8),
            r.known_signatures@[0].1.signature@ == filled(0x49, 256),
    {
        proof {
            reveal_strlit("Hello, World!");
        }
        let data = slice_to_vec_bytes("Hello, World!");
        let sig = SignatureData {
            algorithm: String::from_str("RSA-PKCS1-SHA256"),
            data,
            signature: vec![0x49u8; 256],
        };
        let mut known_signatures: Vec<(String, SignatureData)> = Vec::new();
        known_signatures.push((String::from_str("test_signature"), sig));
        proof {
            assert(known_signatures@[0].1.signature@ =~= filled(0x49, 256));
        }
        SignatureTestData { known_signatures }
    }
}

/// The bytes of an ASCII string.
pub fn slice_to_vec_bytes(s: &str) -> (r: Vec<u8>)
    requires
        s.is_ascii(),
    ensures
        r@ == s@.map_values(|c: char| c as u8),
{
    let bytes = s.as_bytes();
    let mut out: Vec<u8> = Vec::new();
    let mut i: usize = 0;
    proof {
        vstd::string::is_ascii_spec_bytes(s);
    }
    while i < bytes.len()
        invariant
            bytes@ == s.spec_bytes(),
            s.spec_bytes() == s@.map_values(|c: char| c as u8),
            0 <= i <= bytes@.len(),
            out@ == bytes@.subrange(0, i as int),
        decreases bytes@.len() - i,
    {
        out.push(bytes[i]);
        proof {
            assert(bytes@.subrange(0, i + 1) =~= bytes@.subrange(0, i as int).push(bytes@[i as int]));
        }
        i = i + 1;
    }
    proof {
        assert(bytes@.subrange(0, bytes@.len() as int) =~= bytes@);
    }
    out
}

impl View for RsaKeyData {
    type V = (usize, Seq<u8>, Seq<u8>, Seq<u8>);

    open spec fn view(&self) -> Self::V {
        (self.size, self.public_exponent@, self.private_key@, self.public_key@)
    }
}

impl Clone for RsaKeyData {
    /// A copy with the same contents.
    fn clone(&self) -> (r: Self)
        ensures
            r@ == self@,
    {
        RsaKeyData { size: self.size, public_exponent: vstd::slice::slice_to_vec(self.public_exponent.as_slice()), private_key: vstd::slice::slice_to_vec(self.private_key.as_slice()), public_key: vstd::slice::slice_to_vec(self.public_key.as_slice()) }
    }
}

impl View for EcdsaKeyData {
    type V = (Seq<char>, Seq<u8>, Seq<u8>);

    open spec fn view(&self) -> Self::V {
        (self.curve@, self.private_key@, self.public_key@)
    }
}

impl Clone for EcdsaKeyData {
    /// A copy with the same contents.
    fn clone(&self) -> (r: Self)
        ensures
            r@ == self@,
    {
        EcdsaKeyData { curve: self.curve.clone(), private_key: vstd::slice::slice_to_vec(self.private_key.as_slice()), public_key: vstd::slice::slice_to_vec(self.public_key.as_slice()) }
    }
}

impl View for SymmetricKeyData {
    type V = (Seq<char>, Seq<u8>);

    open spec fn view(&self) -> Self::V {
        (self.algorithm@, self.key_data@)
    }
}

impl Clone for SymmetricKeyData {
    /// A copy with the same contents.
    fn clone(&self) -> (r: Self)
        ensures
            r@ == self@,
    {
        SymmetricKeyData { algorithm: self.algorithm.clone(), key_data: vstd::slice::slice_to_vec(self.key_data.as_slice()) }
    }
}

impl View for X509CertData {
    type V = (Seq<char>, Seq<char>, Seq<u8>, Seq<char>, Seq<char>, Seq<u8>, Seq<u8>);

    open spec fn view(&self) -> Self::V {
        (self.subject@, self.issuer@, self.serial_number@, self.not_before@, self.not_after@, self.public_key@, self.der_data@)
    }
}

impl Clone for X509CertData {
    /// A copy with the same contents.
    fn clone(&self) -> (r: Self)
        ensures
            r@ == self@,
    {
        X509CertData { subject: self.subject.clone(), issuer: self.issuer.clone(), serial_number: vstd::slice::slice_to_vec(self.serial_number.as_slice()), not_before: self.not_before.clone(), not_after: self.not_after.clone(), public_key: vstd::slice::slice_to_vec(self.public_key.as_slice()), der_data: vstd::slice::slice_to_vec(self.der_data.as_slice()) }
    }
}

impl View for SignatureData {
    type V = (Seq<char>, Seq<u8>, Seq<u8>);

    open spec fn view(&self) -> Self::V {
        (self.algorithm@, self.data@, self.signature@)
    }
}

impl Clone for SignatureData {
    /// A copy with the same contents.
    fn clone(&self) -> (r: Self)
        ensures
            r@ == self@,
    {
        SignatureData { algorithm: self.algorithm.clone(), data: vstd::slice::slice_to_vec(self.data.as_slice()), signature: vstd::slice::slice_to_vec(self.signature.as_slice()) }
    }
}

/// The view of a list of named RsaKeyData entries.
pub open spec fn rsa_entries_view(v: Seq<(String, RsaKeyData)>) -> Seq<(Seq<char>, <RsaKeyData as View>::V)> {
    v.map_values(|e: (String, RsaKeyData)| (e.0@, e.1@))
}

/// A copy of a list of named RsaKeyData entries.
pub fn copy_rsa_entries(v: &Vec<(String, RsaKeyData)>) -> (r: Vec<(String, RsaKeyData)>)
    ensures
        rsa_entries_view(r@) == rsa_entries_view(v@),
{
    let mut out: Vec<(String, RsaKeyData)> = Vec::new();
    let mut i: usize = 0;
    while i < v.len()
        invariant
            0 <= i <= v@.len(),
            rsa_entries_view(out@) == rsa_entries_view(v@.take(i as int)),
        decreases v@.len() - i,
    {
        let e = &v[i];
        out.push((e.0.clone(), e.1.clone()));
        proof {
            assert(rsa_entries_view(v@.take(i + 1)) =~= rsa_entries_view(v@.take(i as int)).push((v@[i as int].0@, v@[i as int].1@)));
            assert(rsa_entries_view(out@) =~= rsa_entries_view(v@.take(i + 1)));
        }
        i = i + 1;
    }
    proof {
        assert(v@.take(v@.len() as int) =~= v@);
    }
    out
}

/// The view of a list of named EcdsaKeyData entries.
pub open spec fn ecdsa_entries_view(v: Seq<(String, EcdsaKeyData)>) -> Seq<(Seq<char>, <EcdsaKeyData as View>::V)> {
    v.map_values(|e: (String, EcdsaKeyData)| (e.0@, e.1@))
}

/// A copy of a list of named EcdsaKeyData entries.
pub fn copy_ecdsa_entries(v: &Vec<(String, EcdsaKeyData)>) -> (r: Vec<(String, EcdsaKeyData)>)
    ensures
        ecdsa_entries_view(r@) == ecdsa_entries_view(v@),
{
    let mut out: Vec<(String, EcdsaKeyData)> = Vec::new();
    let mut i: usize = 0;
    while i < v.len()
        invariant
            0 <= i <= v@.len(),
            ecdsa_entries_view(out@) == ecdsa_entries_view(v@.take(i as int)),
        decreases v@.len() - i,
    {
        let e = &v[i];
        out.push((e.0.clone(), e.1.clone()));
        proof {
            assert(ecdsa_entries_view(v@.take(i + 1)) =~= ecdsa_entries_view(v@.take(i as int)).push((v@[i as int].0@, v@[i as int].1@)));
            assert(ecdsa_entries_view(out@) =~= ecdsa_entries_view(v@.take(i + 1)));
        }
        i = i + 1;
    }
    proof {
        assert(v@.take(v@.len() as int) =~= v@);
    }
    out
}

/// The view of a list of named SymmetricKeyData entries.
pub open spec fn symmetric_entries_view(v: Seq<(String, SymmetricKeyData)>) -> Seq<(Seq<char>, <SymmetricKeyData as View>::V)> {
    v.map_values(|e: (String, SymmetricKeyData)| (e.0@, e.1@))
}

/// A copy of a list of named SymmetricKeyData entries.
pub fn copy_symmetric_entries(v: &Vec<(String, SymmetricKeyData)>) -> (r: Vec<(String, SymmetricKeyData)>)
    ensures
        symmetric_entries_view(r@) == symmetric_entries_view(v@),
{
    let mut out: Vec<(String, SymmetricKeyData)> = Vec::new();
    let mut i: usize = 0;
    while i < v.len()
        invariant
            0 <= i <= v@.len(),
            symmetric_entries_view(out@) == symmetric_entries_view(v@.take(i as int)),
        decreases v@.len() - i,
    {
        let e = &v[i];
        out.push((e.0.clone(), e.1.clone()));
        proof {
            assert(symmetric_entries_view(v@.take(i + 1)) =~= symmetric_entries_view(v@.take(i as int)).push((v@[i as int].0@, v@[i as int].1@)));
            assert(symmetric_entries_view(out@) =~= symmetric_entries_view(v@.take(i + 1)));
        }
        i = i + 1;
    }
    proof {
        assert(v@.take(v@.len() as int) =~= v@);
    }
    out
}

/// The view of a list of named X509CertData entries.
pub open spec fn x509_entries_view(v: Seq<(String, X509CertData)>) -> Seq<(Seq<char>, <X509CertData as View>::V)> {
    v.map_values(|e: (String, X509CertData)| (e.0@, e.1@))
}

/// A copy of a list of named X509CertData entries.
pub fn copy_x509_entries(v: &Vec<(String, X509CertData)>) -> (r: Vec<(String, X509CertData)>)
    ensures
        x509_entries_view(r@) == x509_entries_view(v@),
{
    let mut out: Vec<(String, X509CertData)> = Vec::new();
    let mut i: usize = 0;
    while i < v.len()
        invariant
            0 <= i <= v@.len(),
            x509_entries_view(out@) == x509_entries_view(v@.take(i as int)),
        decreases v@.len() - i,
    {
        let e = &v[i];
        out.push((e.0.clone(), e.1.clone()));
        proof {
            assert(x509_entries_view(v@.take(i + 1)) =~= x509_entries_view(v@.take(i as int)).push((v@[i as int].0@, v@[i as int].1@)));
            assert(x509_entries_view(out@) =~= x509_entries_view(v@.take(i + 1)));
        }
        i = i + 1;
    }
    proof {
        assert(v@.take(v@.len() as int) =~= v@);
    }
    out
}

/// The view of a list of named SignatureData entries.
pub open spec fn signature_entries_view(v: Seq<(String, SignatureData)>) -> Seq<(Seq<char>, <SignatureData as View>::V)> {
    v.map_values(|e: (String, SignatureData)| (e.0@, e.1@))
}

/// A copy of a list of named SignatureData entries.
pub fn copy_signature_entries(v: &Vec<(String, SignatureData)>) -> (r: Vec<(String, SignatureData)>)
    ensures
        signature_entries_view(r@) == signature_entries_view(v@),
{
    let mut out: Vec<(String, SignatureData)> = Vec::new();
    let mut i: usize = 0;
    while i < v.len()
        invariant
            0 <= i <= v@.len(),
            signature_entries_view(out@) == signature_entries_view(v@.take(i as int)),
        decreases v@.len() - i,
    {
        let e = &v[i];
        out.push((e.0.clone(), e.1.clone()));
        proof {
            assert(signature_entries_view(v@.take(i + 1)) =~= signature_entries_view(v@.take(i as int)).push((v@[i as int].0@, v@[i as int].1@)));
            assert(signature_entries_view(out@) =~= signature_entries_view(v@.take(i + 1)));
        }
        i = i + 1;
    }
    proof {
        assert(v@.take(v@.len() as int) =~= v@);
    }
    out
}

impl View for KeyTestData {
    type V = (Seq<(Seq<char>, <RsaKeyData as View>::V)>, Seq<(Seq<char>, <EcdsaKeyData as View>::V)>, Seq<(Seq<char>, <SymmetricKeyData as View>::V)>);

    open spec fn view(&self) -> Self::V {
        (rsa_entries_view(self.rsa_keys@), ecdsa_entries_view(self.ecdsa_keys@), symmetric_entries_view(self.symmetric_keys@))
    }
}

impl Clone for KeyTestData {
    /// A copy with the same entries.
    fn clone(&self) -> (r: Self)
        ensures
            r@ == self@,
    {
        KeyTestData { rsa_keys: copy_rsa_entries(&self.rsa_keys), ecdsa_keys: copy_ecdsa_entries(&self.ecdsa_keys), symmetric_keys: copy_symmetric_entries(&self.symmetric_keys) }
    }
}

impl View for CertificateTestData {
    type V = (Seq<(Seq<char>, <X509CertData as View>::V)>,);

    open spec fn view(&self) -> Self::V {
        (x509_entries_view(self.x509_certificates@),)
    }
}

impl Clone for CertificateTestData {
    /// A copy with the same entries.
    fn clone(&self) -> (r: Self)
        ensures
            r@ == self@,
    {
        CertificateTestData { x509_certificates: copy_x509_entries(&self.x509_certificates) }
    }
}

impl View for SignatureTestData {
    type V = (Seq<(Seq<char>, <SignatureData as View>::V)>,);

    open spec fn view(&self) -> Self::V {
        (signature_entries_view(self.known_signatures@),)
    }
}

impl Clone for SignatureTestData {
    /// A copy with the same entries.
    fn clone(&self) -> (r: Self)
        ensures
            r@ == self@,
    {
        SignatureTestData { known_signatures: copy_signature_entries(&self.known_signatures) }
    }
}

impl View for TestDataConfig {
    type V = (<KeyTestData as View>::V, <CertificateTestData as View>::V, <SignatureTestData as View>::V);

    open spec fn view(&self) -> Self::V {
        (self.keys@, self.certificates@, self.signatures@)
    }
}

impl Clone for TestDataConfig {
    /// A copy with the same keys, certificates and signatures.
    fn clone(&self) -> (r: Self)
        ensures
            r@ == self@,
    {
        TestDataConfig {
            keys: self.keys.clone(),
            certificates: self.certificates.clone(),
            signatures: self.signatures.clone(),
        }
    }
}

/// Predefined test data.
#[derive(Debug)]
pub struct TestDataConfig {
    pub keys: KeyTestData,
    pub certificates: CertificateTestData,
    pub signatures: SignatureTestData,
}

impl Default for TestDataConfig {
    /// The default keys, certificates and signatures.
    fn default() -> (r: Self)
        ensures
            r.keys.rsa_keys@.len() == 1,
            r.certificates.x509_certificates@.len() == 1,
            r.signatures.known_signatures@.len() == 1,
    {
        TestDataConfig {
            keys: KeyTestData::default(),
            certificates: CertificateTestData::default(),
            signatures: SignatureTestData::default(),
        }
    }
}

/// Configuration of the mock backend.
#[derive(Debug)]
pub struct MockConfig {
    /// Deterministic keys, signatures, ciphertexts and digests.
    pub deterministic: bool,
    /// Error injection, if any.
    pub error_injection: Option<ErrorInjectionConfig>,
    /// Performance simulation, if any.
    pub performance_simulation: Option<PerformanceSimulationConfig>,
    /// Predefined test data.
    pub test_data: TestDataConfig,
}

/// The view of an optional error injection configuration.
pub open spec fn error_injection_view(e: Option<ErrorInjectionConfig>) -> Option<(bool, Seq<Seq<char>>, u32, Seq<Seq<char>>)> {
    match e {
        Some(c) => Some(c@),
        None => None,
    }
}

/// The view of an optional performance simulation configuration.
pub open spec fn performance_view(p: Option<PerformanceSimulationConfig>) -> Option<
    (bool, Seq<(Seq<char>, u64)>, Option<CpuSimulationConfig>, Option<MemorySimulationConfig>),
> {
    match p {
        Some(c) => Some(c@),
        None => None,
    }
}

impl View for MockConfig {
    /// The mode, error injection and performance simulation; the test data is
    /// not part of the view.
    type V = (
        bool,
        Option<(bool, Seq<Seq<char>>, u32, Seq<Seq<char>>)>,
        Option<(bool, Seq<(Seq<char>, u64)>, Option<CpuSimulationConfig>, Option<MemorySimulationConfig>)>,
    );

    open spec fn view(&self) -> Self::V {
        (self.deterministic, error_injection_view(self.error_injection), performance_view(self.performance_simulation))
    }
}

/// Whether the configuration `c` injects an error into operation `op`.
pub open spec fn config_injects(c: <MockConfig as View>::V, op: Seq<char>) -> bool {
    match c.1 {
        Some(e) => e.0 && e.1.contains(op),
        None => false,
    }
}

/// The delay that the configuration `c` adds to operation `op`, if any.
pub open spec fn config_delay(c: <MockConfig as View>::V, op: Seq<char>) -> Option<u64> {
    match c.2 {
        Some(p) => if p.0 {
            delay_lookup(p.1, op)
        } else {
            None
        },
        None => None,
    }
}

impl Clone for MockConfig {
    /// A copy with the same view and the same test data.
    fn clone(&self) -> (r: Self)
        ensures
            r@ == self@,
            r.test_data@ == self.test_data@,
    {
        let error_injection = match &self.error_injection {
            Some(e) => Some(e.clone()),
            None => None,
        };
        let performance_simulation = match &self.performance_simulation {
            Some(p) => Some(p.clone()),
            None => None,
        };
        MockConfig {
            deterministic: self.deterministic,
            error_injection,
            performance_simulation,
            test_data: self.test_data.clone(),
        }
    }
}

impl MockConfig {
    /// The view of the default configuration: deterministic, with no error
    /// injection or performance simulation.
    pub open spec fn spec_default_view() -> <MockConfig as View>::V {
        (true, None::<(bool, Seq<Seq<char>>, u32, Seq<Seq<char>>)>, None::<
            (bool, Seq<(Seq<char>, u64)>, Option<CpuSimulationConfig>, Option<MemorySimulationConfig>),
        >)
    }
}

impl Default for MockConfig {
    /// Deterministic, with no error injection or performance simulation.
    fn default() -> (r: Self)
        ensures
            r@ == MockConfig::spec_default_view(),
    {
        MockConfig::deterministic()
    }
}

impl MockConfig {
    /// A configuration for deterministic testing.
    pub fn deterministic() -> (r: Self)
        ensures
            r@ == MockConfig::spec_default_view(),
    {
        MockConfig {
            deterministic: true,
            error_injection: None,
            performance_simulation: None,
            test_data: TestDataConfig::default(),
        }
    }

    /// A deterministic configuration that always injects an error into the
    /// given operations.
    pub fn with_error_injection(operations: Vec<String>) -> (r: Self)
        ensures
            r.deterministic,
            r.error_injection matches Some(e) && e@ == (true, names_view(operations@), 1_000_000u32, seq!["MockError"@]),
            r.performance_simulation is None,
    {
        let mut error_types: Vec<String> = Vec::new();
        error_types.push(String::from_str("MockError"));
        let r = MockConfig {
            deterministic: true,
            error_injection: Some(ErrorInjectionConfig {
                enabled: true,
                operations,
                probability_ppm: 1_000_000,
                error_types,
            }),
            performance_simulation: None,
            test_data: TestDataConfig::default(),
        };
        proof {
            let e = r.error_injection.unwrap();
            assert(names_view(e.error_types@) =~= seq!["MockError"@]);
        }
        r
    }

    /// A deterministic configuration that delays the given operations (delays in
    /// milliseconds).
    pub fn with_performance_simulation(delays: Vec<(String, u64)>) -> (r: Self)
        ensures
            r.deterministic,
            r.error_injection is None,
            r.performance_simulation matches Some(p) && p@ == (true, delays_view(delays@), None::<CpuSimulationConfig>, None::<MemorySimulationConfig>),
    {
        MockConfig {
            deterministic: true,
            error_injection: None,
            performance_simulation: Some(PerformanceSimulationConfig {
                enabled: true,
                operation_delays: delays,
                cpu_simulation: None,
                memory_simulation: None,
            }),
            test_data: TestDataConfig::default(),
        }
    }

    /// Whether an error is injected into operation `op`.
    pub fn injects_error(&self, op: &str) -> (r: bool)
        ensures
            r == config_injects(self@, op@),
    {
        match &self.error_injection {
            None => false,
            Some(e) => {
                if !e.enabled {
                    return false;
                }
                let name = String::from_str(op);
                let mut i: usize = 0;
                while i < e.operations.len()
                    invariant
                        self.error_injection == Some(*e),
                        e.enabled,
                        0 <= i <= e.operations@.len(),
                        name@ == op@,
                        forall|j: int| 0 <= j < i ==> #[trigger] e.operations@[j]@ != op@,
                    decreases e.operations@.len() - i,
                {
                    if e.operations[i] == name {
                        proof {
                            assert(names_view(e.operations@).len() == e.operations@.len());
                            assert(names_view(e.operations@)[i as int] == op@);
                            assert(names_view(e.operations@).contains(op@));
                        }
                        return true;
                    }
                    i = i + 1;
                }
                proof {
                    assert forall|j: int| 0 <= j < names_view(e.operations@).len() implies #[trigger] names_view(e.operations@)[j] != op@ by {
                        assert(e.operations@[j]@ != op@);
                    }
                }
                false
            },
        }
    }

    /// The delay configured for operation `op`, in milliseconds.
    pub fn operation_delay(&self, op: &str) -> (r: Option<u64>)
        ensures
            r == config_delay(self@, op@),
    {
        match &self.performance_simulation {
            None => None,
            Some(p) => {
                if !p.enabled {
                    return None;
                }
                let name = String::from_str(op);
                let mut i: usize = 0;
                proof {
                    assert(delays_view(p.operation_delays@).subrange(0, p.operation_delays@.len() as int) =~= delays_view(p.operation_delays@));
                }
                while i < p.operation_delays.len()
                    invariant
                        self.performance_simulation == Some(*p),
                        p.enabled,
                        0 <= i <= p.operation_delays@.len(),
                        name@ == op@,
                        delay_lookup(delays_view(p.operation_delays@), op@) == delay_lookup(
                            delays_view(p.operation_delays@).subrange(i as int, p.operation_delays@.len() as int),
                            op@,
                        ),
                    decreases p.operation_delays@.len() - i,
                {
                    let ghost tail = delays_view(p.operation_delays@).subrange(i as int, p.operation_delays@.len() as int);
                    proof {
                        assert(tail.drop_first() =~= delays_view(p.operation_delays@).subrange(i + 1, p.operation_delays@.len() as int));
                    }
                    if p.operation_delays[i].0 == name {
                        proof {
                            assert(tail[0] == (p.operation_delays@[i as int].0@, p.operation_delays@[i as int].1));
                        }
                        return Some(p.operation_delays[i].1);
                    }
                    i = i + 1;
                }
                None
            },
        }
    }
}

/// The bytes that a deterministic generator with `seed` produces: byte `i` is
/// `(seed + i) mod 256`.
pub open spec fn seeded_bytes(seed: int, len: nat) -> Seq<u8> {
    Seq::new(len, |i: int| ((seed + i) % 256) as u8)
}

/// `len` bytes: seeded ones in deterministic mode, random ones otherwise.
pub fn seeded_or_random(deterministic: bool, seed: u64, len: usize) -> (r: Vec<u8>)
    ensures
        r@.len() == len,
        deterministic ==> r@ == seeded_bytes(seed as int, len as nat),
{
    if deterministic {
        let mut data: Vec<u8> = Vec::with_capacity(len);
        let base: u64 = seed % 256;
        let mut i: usize = 0;
        while i < len
            invariant
                0 <= i <= len,
                base == seed % 256,
                data@ == seeded_bytes(seed as int, i as nat),
            decreases len - i,
        {
            let k: u64 = (i % 256) as u64;
            let b: u8 = ((base + k) % 256) as u8;
            proof {
                assert(((seed + i) % 256) == ((seed % 256 + i % 256) % 256)) by (nonlinear_arith);
            }
            data.push(b);
            proof {
                assert(data@ =~= seeded_bytes(seed as int, (i + 1) as nat));
            }
            i = i + 1;
        }
        data
    } else {
        random_bytes(len)
    }
}

/// Generator of mock test data.
#[derive(Debug)]
pub struct MockDataGenerator {
    pub config: MockConfig,
    pub seed: u64,
}

/// The default seed of a generator.
pub const DEFAULT_SEED: u64 = 12345;

/// Key size in bytes of a named elliptic curve (32 for an unknown name).
pub open spec fn curve_key_len(curve: Seq<char>) -> nat {
    if curve == "P-256"@ {
        32
    } else if curve == "P-384"@ {
        48
    } else if curve == "P-521"@ {
        66
    } else {
        32
    }
}

/// Key size in bytes of a named symmetric algorithm (32 for an unknown name).
pub open spec fn symmetric_key_len(algorithm: Seq<char>) -> nat {
    if algorithm == "AES-128"@ {
        16
    } else if algorithm == "AES-192"@ {
        24
    } else if algorithm == "AES-256"@ {
        32
    } else {
        32
    }
}

/// Signature size in bytes of a named signature algorithm (64 for an unknown
/// name).
pub open spec fn signature_len(algorithm: Seq<char>) -> nat {
    if algorithm == "RSA-PKCS1-SHA256"@ {
        256
    } else if algorithm == "ECDSA-SHA256"@ {
        64
    } else {
        64
    }
}

impl MockDataGenerator {
    /// A generator with the default seed.
    pub fn new(config: MockConfig) -> (r: Self)
        ensures
            r.config@ == config@,
            r.seed == DEFAULT_SEED,
    {
        MockDataGenerator { config, seed: DEFAULT_SEED }
    }

    /// A generator with the given seed.
    pub fn with_seed(config: MockConfig, seed: u64) -> (r: Self)
        ensures
            r.config@ == config@,
            r.seed == seed,
    {
        MockDataGenerator { config, seed }
    }

    /// The bytes this generator yields for a request of `len` bytes, in
    /// deterministic mode.
    pub open spec fn spec_data(&self, len: nat) -> Seq<u8> {
        seeded_bytes(self.seed as int, len)
    }

    /// `length` bytes: seeded in deterministic mode, random otherwise.
    pub fn generate_data(&self, length: usize) -> (r: Vec<u8>)
        ensures
            r@.len() == length,
            self.config.deterministic ==> r@ == self.spec_data(length as nat),
    {
        seeded_or_random(self.config.deterministic, self.seed, length)
    }

    /// A mock RSA key pair of `size` bits.
    pub fn generate_rsa_keypair(&self, size: usize) -> (r: RsaKeyData)
        ensures
            r.size == size,
            r.public_exponent@ == seq![1u8, 0u8, 1u8],
            r.private_key@.len() == size / 8,
            r.public_key@.len() == size / 8,
            self.config.deterministic ==> r.private_key@ == self.spec_data((size / 8) as nat)
                && r.public_key@ == self.spec_data((size / 8) as nat),
    {
        let mut exponent: Vec<u8> = Vec::new();
        exponent.push(0x01);
        exponent.push(0x00);
        exponent.push(0x01);
        RsaKeyData {
            size,
            public_exponent: exponent,
            private_key: self.generate_data(size / 8),
            public_key: self.generate_data(size / 8),
        }
    }

    /// A mock ECDSA key pair on the named curve; the public key is an
    /// uncompressed point, twice the key size.
    pub fn generate_ecdsa_keypair(&self, curve: &str) -> (r: EcdsaKeyData)
        ensures
            r.curve@ == curve@,
            r.private_key@.len() == curve_key_len(curve@),
            r.public_key@.len() == 2 * curve_key_len(curve@),
            self.config.deterministic ==> r.private_key@ == self.spec_data(curve_key_len(curve@))
                && r.public_key@ == self.spec_data(2 * curve_key_len(curve@)),
    {
        let key_size: usize = if str_is(curve, "P-256") {
            32
        } else if str_is(curve, "P-384") {
            48
        } else if str_is(curve, "P-521") {
            66
        } else {
            32
        };
        EcdsaKeyData {
            curve: String::from_str(curve),
            private_key: self.generate_data(key_size),
            public_key: self.generate_data(key_size * 2),
        }
    }

    /// A mock symmetric key for the named algorithm.
    pub fn generate_symmetric_key(&self, algorithm: &str) -> (r: SymmetricKeyData)
        ensures
            r.algorithm@ == algorithm@,
            r.key_data@.len() == symmetric_key_len(algorithm@),
            self.config.deterministic ==> r.key_data@ == self.spec_data(symmetric_key_len(algorithm@)),
    {
        let key_size: usize = if str_is(algorithm, "AES-128") {
            16
        } else if str_is(algorithm, "AES-192") {
            24
        } else if str_is(algorithm, "AES-256") {
            32
        } else {
            32
        };
        SymmetricKeyData { algorithm: String::from_str(algorithm), key_data: self.generate_data(key_size) }
    }

    /// A mock certificate for `subject`, issued by `CN=Mock CA`.
    pub fn generate_certificate(&self, subject: &str) -> (r: X509CertData)
        ensures
            r.subject@ == subject@,
            r.issuer@ == "CN=Mock CA"@,
            r.not_before@ == "2023-01-01T00:00:00Z"@,
            r.not_after@ == "2024-01-01T00:00:00Z"@,
            r.serial_number@.len() == 8,
            r.public_key@.len() == 64,
            r.der_data@.len() == 512,
            self.config.deterministic ==> r.serial_number@ == self.spec_data(8) && r.public_key@
                == self.spec_data(64) && r.der_data@ == self.spec_data(512),
    {
        X509CertData {
            subject: String::from_str(subject),
            issuer: String::from_str("CN=Mock CA"),
            serial_number: self.generate_data(8),
            not_before: String::from_str("2023-01-01T00:00:00Z"),
            not_after: String::from_str("2024-01-01T00:00:00Z"),
            public_key: self.generate_data(64),
            der_data: self.generate_data(512),
        }
    }

    /// A mock signature over `data` for the named algorithm.
    pub fn generate_signature(&self, algorithm: &str, data: &[u8]) -> (r: SignatureData)
        ensures
            r.algorithm@ == algorithm@,
            r.data@ == data@,
            r.signature@.len() == signature_len(algorithm@),
            self.config.deterministic ==> r.signature@ == self.spec_data(signature_len(algorithm@)),
    {
        let sig_size: usize = if str_is(algorithm, "RSA-PKCS1-SHA256") {
            256
        } else if str_is(algorithm, "ECDSA-SHA256") {
            64
        } else {
            64
        };
        SignatureData {
            algorithm: String::from_str(algorithm),
            data: vstd::slice::slice_to_vec(data),
            signature: self.generate_data(sig_size),
        }
    }
}

} // verus!
