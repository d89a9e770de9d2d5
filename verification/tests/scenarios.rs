use tls_utils::config::{plan_client_config, ServerVerification};
use tls_utils::error::TlsError;
use tls_utils::fingerprint::{FileFingerprint, IdentityFingerprint};
use tls_utils::identity::load_certified_key;
use tls_utils::reload::{RefreshAction, RefreshEvent, ReloadState};
use tls_utils::roots::{client_root_store, trust_store_from_pem};

fn make_cert_pem() -> (String, String) {
    let key_pair = rcgen::KeyPair::generate().unwrap();
    let cert = rcgen::CertificateParams::new(vec!["localhost".to_string()])
        .unwrap()
        .self_signed(&key_pair)
        .unwrap();
    (cert.pem(), key_pair.serialize_pem())
}

fn fingerprint(cert_path: &str, key_path: &str, cert: &str, key: &str, modified: i128) -> IdentityFingerprint {
    IdentityFingerprint::new(
        FileFingerprint {
            canonical_path: cert_path.as_bytes().to_vec(),
            len: cert.len() as u64,
            modified_nanos: modified,
        },
        FileFingerprint {
            canonical_path: key_path.as_bytes().to_vec(),
            len: key.len() as u64,
            modified_nanos: modified,
        },
    )
}

#[test]
fn server_config_roundtrip() {
    let (cert, key) = make_cert_pem();
    load_certified_key(cert.as_bytes(), key.as_bytes()).unwrap();
}

#[test]
fn client_config_with_mtls() {
    let (cert, key) = make_cert_pem();
    let plan = plan_client_config(true, false, true, true).unwrap();
    assert_eq!(plan.verification, ServerVerification::TrustCaFile);
    assert!(plan.present_identity);
    client_root_store(Some(cert.as_bytes())).unwrap();
    load_certified_key(cert.as_bytes(), key.as_bytes()).unwrap();
}

#[test]
fn client_config_partial_mtls_errors() {
    assert!(plan_client_config(true, false, true, false).is_err());
}

#[test]
fn client_config_empty_ca_errors() {
    assert!(matches!(client_root_store(Some(b"")), Err(TlsError::EmptyCaStore)));
}

#[test]
fn certified_key_reloads_rotated_files() {
    let (cert_pem, key_pem) = make_cert_pem();
    let original = load_certified_key(cert_pem.as_bytes(), key_pem.as_bytes()).unwrap();
    let mut state = ReloadState::new(fingerprint("/tmp/cert", "/tmp/key", &cert_pem, &key_pem, 1), 0);
    let mut served = original.cert.clone();

    let (rotated_cert_pem, rotated_key_pem) = make_cert_pem();
    state.mark_reload_due(0);
    assert_eq!(state.step(RefreshEvent::Requested { now: 0 }), RefreshAction::InspectFiles);
    let observed = fingerprint("/tmp/cert", "/tmp/key", &rotated_cert_pem, &rotated_key_pem, 2);
    assert_eq!(state.step(RefreshEvent::Inspected(Some(observed))), RefreshAction::ReloadIdentity);
    let rotated = load_certified_key(rotated_cert_pem.as_bytes(), rotated_key_pem.as_bytes()).unwrap();
    let loaded = fingerprint("/tmp/cert", "/tmp/key", &rotated_cert_pem, &rotated_key_pem, 2);
    if state.step(RefreshEvent::Reloaded(Some(loaded))) == RefreshAction::InstallReloaded {
        served = rotated.cert.clone();
    }
    assert_ne!(original.cert, served);
}

#[test]
fn certified_key_reloads_symlinked_certificate_generation() {
    let (first_cert, first_key) = make_cert_pem();
    let (second_cert, second_key) = make_cert_pem();
    let original = load_certified_key(first_cert.as_bytes(), first_key.as_bytes()).unwrap();
    let first = fingerprint("/root/server-1/cert.pem", "/root/server-1/key.pem", &first_cert, &first_key, 7);
    let mut state = ReloadState::new(first, 0);
    let mut served = original.cert.clone();

    // The link now leads to the second generation, written at the same time.
    state.mark_reload_due(0);
    assert_eq!(state.step(RefreshEvent::Requested { now: 0 }), RefreshAction::InspectFiles);
    let second = || fingerprint("/root/server-2/cert.pem", "/root/server-2/key.pem", &second_cert, &second_key, 7);
    assert_eq!(state.step(RefreshEvent::Inspected(Some(second()))), RefreshAction::ReloadIdentity);
    let rotated = load_certified_key(second_cert.as_bytes(), second_key.as_bytes()).unwrap();
    if state.step(RefreshEvent::Reloaded(Some(second()))) == RefreshAction::InstallReloaded {
        served = rotated.cert.clone();
    }
    assert_ne!(original.cert, served);
}

#[test]
fn certified_key_keeps_last_valid_identity_during_partial_rotation() {
    let (cert_pem, key_pem) = make_cert_pem();
    let original = load_certified_key(cert_pem.as_bytes(), key_pem.as_bytes()).unwrap();
    let mut state = ReloadState::new(fingerprint("/tmp/cert", "/tmp/key", &cert_pem, &key_pem, 1), 0);
    let mut served = original.cert.clone();

    let (rotated_cert_pem, _) = make_cert_pem();
    state.mark_reload_due(0);
    assert_eq!(state.step(RefreshEvent::Requested { now: 0 }), RefreshAction::InspectFiles);
    let observed = IdentityFingerprint::new(
        FileFingerprint {
            canonical_path: b"/tmp/cert".to_vec(),
            len: rotated_cert_pem.len() as u64,
            modified_nanos: 2,
        },
        FileFingerprint {
            canonical_path: b"/tmp/key".to_vec(),
            len: key_pem.len() as u64,
            modified_nanos: 1,
        },
    );
    assert_eq!(state.step(RefreshEvent::Inspected(Some(observed))), RefreshAction::ReloadIdentity);
    let reloaded = load_certified_key(rotated_cert_pem.as_bytes(), key_pem.as_bytes());
    assert!(matches!(reloaded, Err(TlsError::KeyMismatch(_))));
    match state.step(RefreshEvent::Reloaded(None)) {
        RefreshAction::InstallReloaded => served = Vec::new(),
        _ => {}
    }
    assert_eq!(original.cert, served);
    assert!(state.fingerprint.same_as(&fingerprint("/tmp/cert", "/tmp/key", &cert_pem, &key_pem, 1)));
}

#[test]
fn server_client_ca_store_holds_the_client_ca() {
    let (ca, _) = make_cert_pem();
    let store = trust_store_from_pem(ca.as_bytes()).unwrap();
    assert_eq!(store.len(), 1);
}
