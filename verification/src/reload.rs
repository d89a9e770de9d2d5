//! The decisions taken when a handshake asks for the current TLS identity:
//! whether the identity files are due for a check, whether they changed, and
//! whether a freshly loaded identity replaces the one being served.
//!
//! The caller performs the outside work (reading the clock, inspecting and
//! loading files, swapping the served identity) and reports its outcome as a
//! [`RefreshEvent`]; [`ReloadState::step`] answers with the next
//! [`RefreshAction`].

use vstd::prelude::*;
use crate::fingerprint::{IdentityFingerprint, IdentityFingerprintView};

verus! {

/// Minimum time between two inspections of the identity files, in nanoseconds
/// of the monotonic clock (30 seconds).
pub const RELOAD_CHECK_INTERVAL_NANOS: i64 = 30_000_000_000;

/// Time elapsed from `since` to `now`; zero when `now` is not after `since`.
pub open spec fn elapsed(since: i64, now: i64) -> int {
    if now > since {
        now - since
    } else {
        0
    }
}

/// Whether a check that last happened at `last_checked` is due again at `now`.
pub open spec fn check_due(last_checked: i64, now: i64) -> bool {
    elapsed(last_checked, now) >= RELOAD_CHECK_INTERVAL_NANOS
}

/// What is remembered between two refreshes: the fingerprint of the identity
/// being served and when the files were last inspected.
pub struct ReloadState {
    pub fingerprint: IdentityFingerprint,
    pub last_checked: i64,
}

/// Mathematical model of a [`ReloadState`].
pub struct ReloadStateView {
    pub fingerprint: IdentityFingerprintView,
    pub last_checked: i64,
}

impl View for ReloadState {
    type V = ReloadStateView;

    open spec fn view(&self) -> ReloadStateView {
        ReloadStateView { fingerprint: self.fingerprint@, last_checked: self.last_checked }
    }
}

/// What the caller reports to the state machine.
pub enum RefreshEvent {
    /// A handshake asks for the identity at monotonic time `now` (nanoseconds).
    Requested { now: i64 },
    /// The identity files were inspected: their fingerprint, or `None` when
    /// they could not be inspected.
    Inspected(Option<IdentityFingerprint>),
    /// The identity was loaded again: the fingerprint recorded while loading,
    /// or `None` when the certificate and key could not be loaded.
    Reloaded(Option<IdentityFingerprint>),
}

/// Mathematical model of a [`RefreshEvent`].
pub enum RefreshInput {
    Requested { now: i64 },
    Inspected(Option<IdentityFingerprintView>),
    Reloaded(Option<IdentityFingerprintView>),
}

impl View for RefreshEvent {
    type V = RefreshInput;

    open spec fn view(&self) -> RefreshInput {
        match self {
            RefreshEvent::Requested { now } => RefreshInput::Requested { now: *now },
            RefreshEvent::Inspected(fp) => RefreshInput::Inspected(
                match fp {
                    Some(f) => Some(f@),
                    None => None,
                },
            ),
            RefreshEvent::Reloaded(fp) => RefreshInput::Reloaded(
                match fp {
                    Some(f) => Some(f@),
                    None => None,
                },
            ),
        }
    }
}

/// What the caller is asked to do next.
#[derive(PartialEq, Eq, Structural, Clone, Copy, Debug)]
pub enum RefreshAction {
    /// Hand out the identity currently being served; the refresh is over.
    ServeCurrent,
    /// Inspect the identity files and report [`RefreshEvent::Inspected`].
    InspectFiles,
    /// Load the certificate and key again and report [`RefreshEvent::Reloaded`].
    ReloadIdentity,
    /// Replace the served identity by the one just loaded, then hand it out;
    /// the refresh is over.
    InstallReloaded,
}

/// One transition of the refresh state machine.
pub open spec fn refresh_transition(s: ReloadStateView, input: RefreshInput) -> (
    ReloadStateView,
    RefreshAction,
) {
    match input {
        RefreshInput::Requested { now } => {
            if check_due(s.last_checked, now) {
                (
                    ReloadStateView { fingerprint: s.fingerprint, last_checked: now },
                    RefreshAction::InspectFiles,
                )
            } else {
                (s, RefreshAction::ServeCurrent)
            }
        },
        RefreshInput::Inspected(None) => (s, RefreshAction::ServeCurrent),
        RefreshInput::Inspected(Some(fp)) => {
            if fp == s.fingerprint {
                (s, RefreshAction::ServeCurrent)
            } else {
                (s, RefreshAction::ReloadIdentity)
            }
        },
        RefreshInput::Reloaded(None) => (s, RefreshAction::ServeCurrent),
        RefreshInput::Reloaded(Some(fp)) => (
            ReloadStateView { fingerprint: fp, last_checked: s.last_checked },
            RefreshAction::InstallReloaded,
        ),
    }
}

impl ReloadState {
    /// The state right after an identity with fingerprint `fingerprint` was
    /// loaded at monotonic time `now`.
    pub fn new(fingerprint: IdentityFingerprint, now: i64) -> (r: ReloadState)
        ensures
            r@.fingerprint == fingerprint@,
            r@.last_checked == now,
    {
        ReloadState { fingerprint, last_checked: now }
    }

    /// Feeds one event to the state machine and returns what to do next.
    pub fn step(&mut self, event: RefreshEvent) -> (action: RefreshAction)
        ensures
            (final(self)@, action) == refresh_transition(old(self)@, event@),
    {
        match event {
            RefreshEvent::Requested { now } => {
                let due = now > self.last_checked && (now as i128) - (self.last_checked as i128)
                    >= RELOAD_CHECK_INTERVAL_NANOS as i128;
                if due {
                    self.last_checked = now;
                    RefreshAction::InspectFiles
                } else {
                    RefreshAction::ServeCurrent
                }
            },
            RefreshEvent::Inspected(None) => RefreshAction::ServeCurrent,
            RefreshEvent::Inspected(Some(fp)) => {
                if fp.same_as(&self.fingerprint) {
                    RefreshAction::ServeCurrent
                } else {
                    RefreshAction::ReloadIdentity
                }
            },
            RefreshEvent::Reloaded(None) => RefreshAction::ServeCurrent,
            RefreshEvent::Reloaded(Some(fp)) => {
                self.fingerprint = fp;
                RefreshAction::InstallReloaded
            },
        }
    }

    /// Makes the next request at or after `now` due for an inspection, as if
    /// the last inspection had happened one interval before `now`.
    pub fn mark_reload_due(&mut self, now: i64)
        requires
            now >= i64::MIN + RELOAD_CHECK_INTERVAL_NANOS,
        ensures
            final(self)@.fingerprint == old(self)@.fingerprint,
            final(self)@.last_checked == now - RELOAD_CHECK_INTERVAL_NANOS,
            forall|later: i64| later >= now ==> check_due(#[trigger] final(self)@.last_checked, later),
    {
        self.last_checked = now - RELOAD_CHECK_INTERVAL_NANOS;
    }
}

/// The state after feeding `inputs`, in order, to the state machine from `s`.
pub open spec fn run_refresh(s: ReloadStateView, inputs: Seq<RefreshInput>) -> ReloadStateView
    decreases inputs.len(),
{
    if inputs.len() == 0 {
        s
    } else {
        refresh_transition(run_refresh(s, inputs.drop_last()), inputs.last()).0
    }
}

/// The actions answered while feeding `inputs`, in order, from `s`.
pub open spec fn run_actions(s: ReloadStateView, inputs: Seq<RefreshInput>) -> Seq<RefreshAction>
    decreases inputs.len(),
{
    if inputs.len() == 0 {
        Seq::empty()
    } else {
        run_actions(s, inputs.drop_last()).push(
            refresh_transition(run_refresh(s, inputs.drop_last()), inputs.last()).1,
        )
    }
}

/// The clock readings of the requests, among `inputs`, that led to an
/// inspection of the identity files.
pub open spec fn inspection_times(s: ReloadStateView, inputs: Seq<RefreshInput>) -> Seq<i64>
    decreases inputs.len(),
{
    if inputs.len() == 0 {
        Seq::empty()
    } else {
        let before = inspection_times(s, inputs.drop_last());
        let prev = run_refresh(s, inputs.drop_last());
        match inputs.last() {
            RefreshInput::Requested { now } => {
                if check_due(prev.last_checked, now) {
                    before.push(now)
                } else {
                    before
                }
            },
            _ => before,
        }
    }
}

proof fn lemma_last_checked_is_last_inspection(s: ReloadStateView, inputs: Seq<RefreshInput>)
    ensures
        run_refresh(s, inputs).last_checked == (if inspection_times(s, inputs).len() == 0 {
            s.last_checked
        } else {
            inspection_times(s, inputs).last()
        }),
    decreases inputs.len(),
{
    if inputs.len() > 0 {
        lemma_last_checked_is_last_inspection(s, inputs.drop_last());
    }
}

/// Rate limit: the identity files are inspected at most once per check
/// interval. The first inspection comes a full interval after the last one
/// recorded in `s`, and any two successive inspections are a full interval
/// apart, whatever the events in between and whatever the clock readings.
pub proof fn law_inspections_are_rate_limited(s: ReloadStateView, inputs: Seq<RefreshInput>)
    ensures
        ({
            let times = inspection_times(s, inputs);
            &&& times.len() > 0 ==> times[0] - s.last_checked >= RELOAD_CHECK_INTERVAL_NANOS
            &&& forall|i: int|
                0 <= i < times.len() - 1 ==> #[trigger] times[i + 1] - times[i]
                    >= RELOAD_CHECK_INTERVAL_NANOS
        }),
    decreases inputs.len(),
{
    if inputs.len() > 0 {
        let prefix = inputs.drop_last();
        law_inspections_are_rate_limited(s, prefix);
        lemma_last_checked_is_last_inspection(s, prefix);
        let before = inspection_times(s, prefix);
        let times = inspection_times(s, inputs);
        assert forall|i: int|
            0 <= i < times.len() - 1 implies #[trigger] times[i + 1] - times[i]
                >= RELOAD_CHECK_INTERVAL_NANOS by {
            if i + 1 < before.len() {
                assert(times[i] == before[i]);
                assert(times[i + 1] == before[i + 1]);
            }
        }
    }
}

/// Every refresh ends after at most three answers: a request is answered by
/// serving or by an inspection, an inspection by serving or by a reload, and
/// a reload by serving or by installing; serving and installing end it.
pub proof fn law_refresh_ends(s: ReloadStateView, input: RefreshInput)
    ensures
        ({
            let action = refresh_transition(s, input).1;
            &&& input is Requested ==> (action == RefreshAction::ServeCurrent || action
                == RefreshAction::InspectFiles)
            &&& input is Inspected ==> (action == RefreshAction::ServeCurrent || action
                == RefreshAction::ReloadIdentity)
            &&& input is Reloaded ==> (action == RefreshAction::ServeCurrent || action
                == RefreshAction::InstallReloaded)
        }),
{
}

/// Requests are the only events that move the time of the last inspection,
/// and a request only moves it when an inspection is due.
pub proof fn law_only_due_requests_start_inspections(s: ReloadStateView, input: RefreshInput)
    ensures
        ({
            let (next, action) = refresh_transition(s, input);
            &&& (action == RefreshAction::InspectFiles) <==> (input matches RefreshInput::Requested {
                now,
            } && check_due(s.last_checked, now))
            &&& next.last_checked != s.last_checked ==> action == RefreshAction::InspectFiles
        }),
{
}

/// Keeping the last valid identity: when the files cannot be inspected, when
/// they are unchanged, or when loading them fails, the identity being served
/// and its fingerprint stay as they are and nothing is installed.
pub proof fn law_failed_or_unchanged_checks_keep_identity(
    s: ReloadStateView,
    observed: IdentityFingerprintView,
)
    ensures
        refresh_transition(s, RefreshInput::Inspected(None)) == (s, RefreshAction::ServeCurrent),
        refresh_transition(s, RefreshInput::Reloaded(None)) == (s, RefreshAction::ServeCurrent),
        observed == s.fingerprint ==> refresh_transition(s, RefreshInput::Inspected(Some(observed)))
            == (s, RefreshAction::ServeCurrent),
        observed != s.fingerprint ==> refresh_transition(s, RefreshInput::Inspected(Some(observed)))
            == (s, RefreshAction::ReloadIdentity),
{
}

/// A successful reload installs the new identity and records its fingerprint;
/// an inspection that then finds the same files does not load them again.
pub proof fn law_reload_installs_and_settles(s: ReloadStateView, loaded: IdentityFingerprintView)
    ensures
        ({
            let (next, action) = refresh_transition(s, RefreshInput::Reloaded(Some(loaded)));
            &&& action == RefreshAction::InstallReloaded
            &&& next.fingerprint == loaded
            &&& next.last_checked == s.last_checked
            &&& refresh_transition(next, RefreshInput::Inspected(Some(loaded))) == (
                next,
                RefreshAction::ServeCurrent,
            )
        }),
{
}

/// Whether the events, run after the identity with fingerprint `served` was
/// installed, leave it alone: every inspection either fails or finds the
/// files of `served`, and no other identity is reported as reloaded.
pub open spec fn files_stay_as_installed(
    served: IdentityFingerprintView,
    inputs: Seq<RefreshInput>,
) -> bool {
    forall|i: int|
        0 <= i < inputs.len() ==> match #[trigger] inputs[i] {
            RefreshInput::Inspected(Some(fp)) => fp == served,
            RefreshInput::Reloaded(Some(_)) => false,
            _ => true,
        }
}

/// An installed identity keeps being served: once the identity `loaded` is
/// installed, as long as the files still show that identity (or cannot be
/// inspected), no event leads to a reload or an install, and the recorded
/// fingerprint stays `loaded`, whatever the requests and clock readings.
pub proof fn law_installed_identity_stays(
    s: ReloadStateView,
    loaded: IdentityFingerprintView,
    inputs: Seq<RefreshInput>,
)
    requires
        files_stay_as_installed(loaded, inputs),
    ensures
        ({
            let installed = refresh_transition(s, RefreshInput::Reloaded(Some(loaded))).0;
            &&& run_refresh(installed, inputs).fingerprint == loaded
            &&& run_actions(installed, inputs).len() == inputs.len()
            &&& forall|i: int|
                0 <= i < inputs.len() ==> #[trigger] run_actions(installed, inputs)[i]
                    != RefreshAction::ReloadIdentity && run_actions(installed, inputs)[i]
                    != RefreshAction::InstallReloaded
        }),
{
    let installed = refresh_transition(s, RefreshInput::Reloaded(Some(loaded))).0;
    lemma_fingerprint_stays(installed, inputs);
}

proof fn lemma_fingerprint_stays(s: ReloadStateView, inputs: Seq<RefreshInput>)
    requires
        files_stay_as_installed(s.fingerprint, inputs),
    ensures
        run_refresh(s, inputs).fingerprint == s.fingerprint,
        run_actions(s, inputs).len() == inputs.len(),
        forall|i: int|
            0 <= i < inputs.len() ==> #[trigger] run_actions(s, inputs)[i]
                != RefreshAction::ReloadIdentity && run_actions(s, inputs)[i]
                != RefreshAction::InstallReloaded,
    decreases inputs.len(),
{
    if inputs.len() > 0 {
        let prefix = inputs.drop_last();
        assert forall|i: int| 0 <= i < prefix.len() implies match #[trigger] prefix[i] {
            RefreshInput::Inspected(Some(fp)) => fp == s.fingerprint,
            RefreshInput::Reloaded(Some(_)) => false,
            _ => true,
        } by {
            assert(prefix[i] == inputs[i]);
        }
        lemma_fingerprint_stays(s, prefix);
        let last = inputs.len() - 1;
        assert(match inputs[last] {
            RefreshInput::Inspected(Some(fp)) => fp == s.fingerprint,
            RefreshInput::Reloaded(Some(_)) => false,
            _ => true,
        });
        assert forall|i: int|
            0 <= i < inputs.len() - 1 implies #[trigger] run_actions(s, inputs)[i] == run_actions(s, prefix)[i] by {}
    }
}

/// Where the served identity comes from: after any sequence of events, the
/// recorded fingerprint is the initial one, unless some event reported a
/// successful reload; then it is the fingerprint of the last such reload, and
/// exactly the events that reported a successful reload were answered by
/// installing it.
pub proof fn law_identity_changes_only_by_reload(s: ReloadStateView, inputs: Seq<RefreshInput>)
    ensures
        (forall|i: int| 0 <= i < inputs.len() ==> !(#[trigger] inputs[i] matches RefreshInput::Reloaded(Some(_))))
            ==> run_refresh(s, inputs).fingerprint == s.fingerprint,
        forall|i: int|
            0 <= i < inputs.len() && (#[trigger] inputs[i] matches RefreshInput::Reloaded(Some(_)))
                && (forall|j: int| i < j < inputs.len() ==> !(#[trigger] inputs[j] matches RefreshInput::Reloaded(Some(_))))
                ==> inputs[i] == RefreshInput::Reloaded(Some(run_refresh(s, inputs).fingerprint)),
        run_actions(s, inputs).len() == inputs.len(),
        forall|i: int|
            0 <= i < inputs.len() ==> ((#[trigger] run_actions(s, inputs)[i]
                == RefreshAction::InstallReloaded) <==> (inputs[i] matches RefreshInput::Reloaded(Some(_)))),
    decreases inputs.len(),
{
    if inputs.len() > 0 {
        let prefix = inputs.drop_last();
        law_identity_changes_only_by_reload(s, prefix);
        assert forall|i: int|
            0 <= i < prefix.len() implies #[trigger] prefix[i] == inputs[i] by {}
        assert forall|i: int|
            0 <= i < inputs.len() - 1 implies #[trigger] run_actions(s, inputs)[i] == run_actions(s, prefix)[i] by {}
        let last = inputs.len() - 1;
        assert forall|i: int|
            0 <= i < inputs.len() && (#[trigger] inputs[i] matches RefreshInput::Reloaded(Some(_)))
                && (forall|j: int| i < j < inputs.len() ==> !(#[trigger] inputs[j] matches RefreshInput::Reloaded(Some(_))))
                implies inputs[i] == RefreshInput::Reloaded(Some(run_refresh(s, inputs).fingerprint)) by {
            if i < last {
                assert(!(inputs[last] matches RefreshInput::Reloaded(Some(_))));
                assert(prefix[i] == inputs[i]);
                assert forall|j: int| i < j < prefix.len() implies !(#[trigger] prefix[j] matches RefreshInput::Reloaded(Some(_))) by {
                    assert(prefix[j] == inputs[j]);
                }
            }
        }
    }
}

} // verus!
