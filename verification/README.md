# vtok_p11

A PKCS#11 provider core with pluggable cryptographic backends, written in
Verus: the backend abstraction (keys, key pairs, certificates, digest, sign,
verify, encrypt and decrypt contexts), a mock backend for tests, an AWS-LC
backend, and the provider core (object database, sessions, operation state
machines and the bridge to the backends). The functions under `src/` are
verified against their `requires`/`ensures` contracts, except the small
wrappers marked `#[verifier::external_body]` that make the calls into
`sha2`, `aws-lc-rs`, `rand` and `std`: their contracts are trusted, not
proved (see below).

Object search on a session lists every object the session may see
(private objects only after login); search by attribute template is not
provided.

## Layout

- `src/types/` — key algorithms and types, mechanisms, context parameters,
  errors.
- `src/traits/` — what keys, key pairs, certificates, operation contexts and
  backends offer, with the behaviour of their default methods.
- `src/utils/` — PKCS#11 code conversions, hexadecimal, constant-time
  comparison, PKCS#7 padding.
- `src/mock/` — the mock backend: configuration, keys, contexts, provider and
  test-data helpers.
- `src/aws/` — the AWS-LC backend, its keys, contexts and provider.
- `src/p11/` — the provider core: mechanism codes, object database, sessions,
  the operation functions and the backend bridge.
- `src/digests.rs`, `src/rng.rs`, `src/clock.rs`, `src/text.rs` — the calls
  into `sha2`, `aws-lc-rs`, `rand` and `std` that the logic rests on, each
  with the contract it is trusted to meet.
- `app/` — JSON persistence, the async runtime façade, process-wide
  initialization with logging, and the two information tools.
- `tests/` — tests of the library.
