use tls_utils::fingerprint::{FileFingerprint, IdentityFingerprint};
use tls_utils::reload::{RefreshAction, RefreshEvent, ReloadState, RELOAD_CHECK_INTERVAL_NANOS};

fn file(path: &str, len: u64, modified_nanos: i128) -> FileFingerprint {
    FileFingerprint { canonical_path: path.as_bytes().to_vec(), len, modified_nanos }
}

fn identity(generation: i128) -> IdentityFingerprint {
    IdentityFingerprint::new(
        file("/certs/server/cert.pem", 1000, generation),
        file("/certs/server/key.pem", 200, generation),
    )
}

const SECOND: i64 = 1_000_000_000;

#[test]
fn check_interval_is_thirty_seconds() {
    assert_eq!(RELOAD_CHECK_INTERVAL_NANOS, 30 * SECOND);
}

#[test]
fn fingerprints_compare_every_field() {
    let a = file("/a", 1, 2);
    assert!(a.same_as(&file("/a", 1, 2)));
    assert!(!a.same_as(&file("/b", 1, 2)));
    assert!(!a.same_as(&file("/a", 3, 2)));
    assert!(!a.same_as(&file("/a", 1, 4)));
    assert!(!a.same_as(&file("/a/", 1, 2)));
    assert!(identity(1).same_as(&identity(1)));
    assert!(!identity(1).same_as(&identity(2)));
    let swapped = IdentityFingerprint::new(file("/k", 1, 1), file("/c", 1, 1));
    assert!(!swapped.same_as(&IdentityFingerprint::new(file("/c", 1, 1), file("/k", 1, 1))));
}

#[test]
fn requests_within_the_interval_serve_current_identity() {
    let mut state = ReloadState::new(identity(1), 0);
    assert_eq!(state.step(RefreshEvent::Requested { now: 0 }), RefreshAction::ServeCurrent);
    assert_eq!(
        state.step(RefreshEvent::Requested { now: 30 * SECOND - 1 }),
        RefreshAction::ServeCurrent
    );
    assert_eq!(state.last_checked, 0);
    assert_eq!(state.step(RefreshEvent::Requested { now: -5 }), RefreshAction::ServeCurrent);
    assert_eq!(state.last_checked, 0);
}

#[test]
fn due_request_inspects_files_and_restarts_interval() {
    let mut state = ReloadState::new(identity(1), 0);
    assert_eq!(
        state.step(RefreshEvent::Requested { now: 30 * SECOND }),
        RefreshAction::InspectFiles
    );
    assert_eq!(state.last_checked, 30 * SECOND);
    assert_eq!(state.step(RefreshEvent::Inspected(Some(identity(1)))), RefreshAction::ServeCurrent);
    assert_eq!(
        state.step(RefreshEvent::Requested { now: 59 * SECOND }),
        RefreshAction::ServeCurrent
    );
    assert_eq!(
        state.step(RefreshEvent::Requested { now: 60 * SECOND }),
        RefreshAction::InspectFiles
    );
}

#[test]
fn rotated_files_are_reloaded_and_installed() {
    let mut state = ReloadState::new(identity(1), 0);
    state.mark_reload_due(10);
    assert_eq!(state.step(RefreshEvent::Requested { now: 10 }), RefreshAction::InspectFiles);
    assert_eq!(
        state.step(RefreshEvent::Inspected(Some(identity(2)))),
        RefreshAction::ReloadIdentity
    );
    assert_eq!(
        state.step(RefreshEvent::Reloaded(Some(identity(3)))),
        RefreshAction::InstallReloaded
    );
    assert!(state.fingerprint.same_as(&identity(3)));
    assert_eq!(state.last_checked, 10);
    // The files that were loaded are not loaded again.
    state.mark_reload_due(20);
    assert_eq!(state.step(RefreshEvent::Requested { now: 20 }), RefreshAction::InspectFiles);
    assert_eq!(state.step(RefreshEvent::Inspected(Some(identity(3)))), RefreshAction::ServeCurrent);
}

#[test]
fn failed_reload_keeps_last_valid_identity() {
    let mut state = ReloadState::new(identity(1), 0);
    state.mark_reload_due(5);
    assert_eq!(state.step(RefreshEvent::Requested { now: 5 }), RefreshAction::InspectFiles);
    assert_eq!(
        state.step(RefreshEvent::Inspected(Some(identity(2)))),
        RefreshAction::ReloadIdentity
    );
    assert_eq!(state.step(RefreshEvent::Reloaded(None)), RefreshAction::ServeCurrent);
    assert!(state.fingerprint.same_as(&identity(1)));
    // The next due check tries again.
    state.mark_reload_due(6);
    assert_eq!(state.step(RefreshEvent::Requested { now: 6 }), RefreshAction::InspectFiles);
    assert_eq!(
        state.step(RefreshEvent::Inspected(Some(identity(2)))),
        RefreshAction::ReloadIdentity
    );
}

#[test]
fn uninspectable_files_keep_last_valid_identity() {
    let mut state = ReloadState::new(identity(1), 0);
    assert_eq!(
        state.step(RefreshEvent::Requested { now: 31 * SECOND }),
        RefreshAction::InspectFiles
    );
    assert_eq!(state.step(RefreshEvent::Inspected(None)), RefreshAction::ServeCurrent);
    assert!(state.fingerprint.same_as(&identity(1)));
    assert_eq!(state.last_checked, 31 * SECOND);
}

#[test]
fn marking_due_sets_last_check_one_interval_back() {
    let mut state = ReloadState::new(identity(1), 100 * SECOND);
    state.mark_reload_due(0);
    assert_eq!(state.last_checked, -30 * SECOND);
    assert!(state.fingerprint.same_as(&identity(1)));
    assert_eq!(state.step(RefreshEvent::Requested { now: 0 }), RefreshAction::InspectFiles);
}
