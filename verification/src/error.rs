//! Why a TLS configuration or identity could not be built.

use vstd::prelude::*;

verus! {

/// Makes `std::io::Error` known to the verifier as an opaque type.
#[verifier::external_type_specification]
#[verifier::external_body]
pub struct ExIoError(std::io::Error);

/// Makes `rustls::Error` known to the verifier as an opaque type.
#[verifier::external_type_specification]
#[verifier::external_body]
pub struct ExRustlsError(rustls::Error);

/// The reasons for which the TLS helpers refuse a request. Where an outside
/// library reported the problem, its error is kept as the source.
#[derive(Debug)]
pub enum TlsError {
    /// A client certificate was given without its key, or a key without its
    /// certificate.
    PartialClientIdentity,
    /// The trusted CA file is not well-formed PEM.
    CaCertificatePem(std::io::Error),
    /// A certificate of the trusted CA file cannot serve as a trust anchor.
    CaCertificateRejected(rustls::Error),
    /// The trusted CA file holds no certificate at all.
    EmptyCaStore,
    /// A client-certificate verifier cannot be built, because the client CA
    /// file holds no certificate.
    NoClientCaAnchor(rustls::server::VerifierBuilderError),
    /// The identity's certificate file is not well-formed PEM.
    CertificatePem(std::io::Error),
    /// The identity's key file is not well-formed PEM.
    PrivateKeyPem(std::io::Error),
    /// The identity's key file holds no private key.
    NoPrivateKey,
    /// The private key is not an RSA, ECDSA or EdDSA key that can sign.
    UnsupportedPrivateKey(rustls::Error),
    /// The private key does not belong to the certificate.
    KeyMismatch(rustls::Error),
}

} // verus!
