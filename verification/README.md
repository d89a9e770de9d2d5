# tls_utils

Helpers for the TLS transports of a runtime: reading trust anchors and
identities from PEM, deciding the shape of client configurations, and deciding
when a rotated certificate and key are loaded again. The library is written in
Verus. Every verified function in `src/` carries a contract that Verus
proves; the small wrappers that call `rustls` and `rustls_pemfile` (marked
`external_body`) carry contracts that are trusted, not proved, and their doc
comments say what they claim of the outside code.

Layout:

- `src/timeout.rs`: the handshake timeout read from configuration text.
- `src/fingerprint.rs`: what is recorded of a certificate or key file.
- `src/reload.rs`: the refresh state machine and its laws (rate limit,
  keeping the last valid identity, where the served identity comes from).
- `src/pem.rs`, `src/roots.rs`, `src/identity.rs`: PEM reading through
  `rustls_pemfile`; trust stores, the client-certificate verifier and
  identities through `rustls`.
- `src/config.rs`: how a client configuration is made up.
- `src/error.rs`: the error type.
- `app/lib.rs`: file access, the environment, locking, logging, the rustls
  configuration builders and the rustls trait implementations, around the
  library.
- `tests/`: tests of the library on concrete values.
