//! What a TLS client configuration is made of, decided from what the caller
//! asked for.

use vstd::prelude::*;
use crate::error::TlsError;

verus! {

/// How a client checks the certificate that a server presents.
#[derive(PartialEq, Eq, Structural, Clone, Copy, Debug)]
pub enum ServerVerification {
    /// Accept any certificate without checking it (development and tests only).
    AcceptAnyCertificate,
    /// Check it against the certificates of the given CA file.
    TrustCaFile,
    /// Check it against an empty set of trust anchors, so that no server is
    /// trusted.
    TrustNoAnchor,
}

/// The shape of a client configuration.
#[derive(PartialEq, Eq, Structural, Clone, Copy, Debug)]
pub struct ClientConfigPlan {
    /// How the server's certificate is checked.
    pub verification: ServerVerification,
    /// Whether the client presents its own certificate (mutual TLS).
    pub present_identity: bool,
}

/// The client configuration shape for the given inputs: the insecure switch
/// overrides the CA file, and the client presents an identity exactly when
/// both its certificate and key are given.
pub open spec fn planned_client_config(
    ca_given: bool,
    insecure: bool,
    cert_given: bool,
    key_given: bool,
) -> ClientConfigPlan {
    ClientConfigPlan {
        verification: if insecure {
            ServerVerification::AcceptAnyCertificate
        } else if ca_given {
            ServerVerification::TrustCaFile
        } else {
            ServerVerification::TrustNoAnchor
        },
        present_identity: cert_given && key_given,
    }
}

/// Decides the shape of a client configuration from which of its inputs were
/// given: a CA file, the insecure switch, a client certificate and a client
/// key. A certificate without its key, or a key without its certificate, is
/// refused before anything else.
pub fn plan_client_config(
    ca_given: bool,
    insecure: bool,
    cert_given: bool,
    key_given: bool,
) -> (r: Result<ClientConfigPlan, TlsError>)
    ensures
        r is Err <==> cert_given != key_given,
        r is Err ==> (r->Err_0 is PartialClientIdentity),
        r is Ok ==> r->Ok_0 == planned_client_config(ca_given, insecure, cert_given, key_given),
{
    if cert_given != key_given {
        return Err(TlsError::PartialClientIdentity);
    }
    let verification = if insecure {
        ServerVerification::AcceptAnyCertificate
    } else if ca_given {
        ServerVerification::TrustCaFile
    } else {
        ServerVerification::TrustNoAnchor
    };
    Ok(ClientConfigPlan { verification, present_identity: cert_given })
}

/// How a server treats client certificates.
#[derive(PartialEq, Eq, Structural, Clone, Copy, Debug)]
pub enum ClientAuthentication {
    /// Every client must present a certificate signed by the client CA
    /// (mutual TLS).
    RequireCaSignedCertificate,
    /// Clients are not asked for a certificate.
    NoClientCertificate,
}

/// Decides how a server treats client certificates: with a client CA file,
/// each client must present a certificate signed by that CA; without one,
/// client certificates are not requested.
pub fn plan_server_client_auth(client_ca_given: bool) -> (r: ClientAuthentication)
    ensures
        r == (if client_ca_given {
            ClientAuthentication::RequireCaSignedCertificate
        } else {
            ClientAuthentication::NoClientCertificate
        }),
{
    if client_ca_given {
        ClientAuthentication::RequireCaSignedCertificate
    } else {
        ClientAuthentication::NoClientCertificate
    }
}

/// Insecure mode: whenever the client identity request is whole, the
/// insecure switch makes the client accept any server certificate, whether
/// or not a CA file is given.
pub proof fn law_insecure_accepts_any_certificate(
    ca_given: bool,
    cert_given: bool,
    key_given: bool,
    r: Result<ClientConfigPlan, TlsError>,
)
    requires
        call_ensures(plan_client_config, (ca_given, true, cert_given, key_given), r),
        cert_given == key_given,
    ensures
        r is Ok,
        r->Ok_0.verification == ServerVerification::AcceptAnyCertificate,
{
}

/// Without the insecure switch, a given CA file is what server certificates
/// are checked against, and without one no server is trusted.
pub proof fn law_secure_mode_trusts_ca_file_only(
    ca_given: bool,
    cert_given: bool,
    key_given: bool,
    r: Result<ClientConfigPlan, TlsError>,
)
    requires
        call_ensures(plan_client_config, (ca_given, false, cert_given, key_given), r),
        cert_given == key_given,
    ensures
        r is Ok,
        ca_given ==> r->Ok_0.verification == ServerVerification::TrustCaFile,
        !ca_given ==> r->Ok_0.verification == ServerVerification::TrustNoAnchor,
{
}

/// The client presents its own certificate exactly when both the
/// certificate and the key are given, in insecure mode or not and with or
/// without a CA file; giving only one of them is refused.
pub proof fn law_identity_presented_iff_both_given(
    ca_given: bool,
    insecure: bool,
    cert_given: bool,
    key_given: bool,
    r: Result<ClientConfigPlan, TlsError>,
)
    requires
        call_ensures(plan_client_config, (ca_given, insecure, cert_given, key_given), r),
    ensures
        r is Ok <==> cert_given == key_given,
        r is Ok ==> (r->Ok_0.present_identity <==> (cert_given && key_given)),
{
}

} // verus!
