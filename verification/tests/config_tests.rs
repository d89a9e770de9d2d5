use tls_utils::config::{
    plan_client_config, plan_server_client_auth, ClientAuthentication, ClientConfigPlan,
    ServerVerification,
};
use tls_utils::error::TlsError;

#[test]
fn partial_client_identity_is_refused() {
    for (ca, insecure) in [(false, false), (true, false), (false, true), (true, true)] {
        assert!(matches!(
            plan_client_config(ca, insecure, true, false),
            Err(TlsError::PartialClientIdentity)
        ));
        assert!(matches!(
            plan_client_config(ca, insecure, false, true),
            Err(TlsError::PartialClientIdentity)
        ));
    }
}

#[test]
fn insecure_overrides_ca_file() {
    let plan = plan_client_config(true, true, false, false).unwrap();
    assert_eq!(
        plan,
        ClientConfigPlan { verification: ServerVerification::AcceptAnyCertificate, present_identity: false }
    );
}

#[test]
fn ca_file_is_trusted_when_secure() {
    let plan = plan_client_config(true, false, true, true).unwrap();
    assert_eq!(
        plan,
        ClientConfigPlan { verification: ServerVerification::TrustCaFile, present_identity: true }
    );
}

#[test]
fn no_ca_file_trusts_no_anchor() {
    let plan = plan_client_config(false, false, false, false).unwrap();
    assert_eq!(
        plan,
        ClientConfigPlan { verification: ServerVerification::TrustNoAnchor, present_identity: false }
    );
}

#[test]
fn server_requires_client_certificate_only_with_client_ca() {
    assert_eq!(plan_server_client_auth(true), ClientAuthentication::RequireCaSignedCertificate);
    assert_eq!(plan_server_client_auth(false), ClientAuthentication::NoClientCertificate);
}
