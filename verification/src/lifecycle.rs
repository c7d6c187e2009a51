//! Install / update lifecycle of applications.
//!
//! Installing persists the bundle first and only then requests the
//! backend-side installation; updating replaces the persisted bundle and the
//! backend's coordinator logic; the conditional update compares the candidate
//! bundle's content hash with the recorded one and performs the full update
//! only when they differ.
//!
//! The admin-socket calls themselves are network I/O and live outside this
//! crate. The functions here make every decision: what to do for a given
//! index state and candidate bundle, what to record after a successful step,
//! and which event to emit. [`install_transition`] fixes the order of the
//! steps, and [`lemma_install_requires_stored_bundle`] proves that no run of
//! the flow requests a backend installation before the bundle is persisted.

use vstd::prelude::*;

use crate::digest::{content_hash, content_hash_spec};
use crate::error::UpdateAppError;
use crate::index::InstalledAppsIndex;

verus! {

/// What a conditional update must do.
#[derive(Debug, PartialEq, Eq, Structural, Clone, Copy)]
pub enum UpdateDecision {
    /// The application was never recorded as installed: the update is refused.
    AppNotFound,
    /// The recorded hash equals the candidate bundle's hash: nothing to do.
    UpToDate,
    /// The hashes differ: perform the full update.
    NeedsUpdate,
}

/// The decision of a conditional update, as a function of the recorded hash
/// and the candidate bundle's hash.
pub open spec fn update_decision_spec(
    index: InstalledAppsIndex,
    id: Seq<char>,
    candidate_hash: u64,
) -> UpdateDecision {
    match index.spec_lookup(id) {
        None => UpdateDecision::AppNotFound,
        Some(recorded) => if recorded == candidate_hash {
            UpdateDecision::UpToDate
        } else {
            UpdateDecision::NeedsUpdate
        },
    }
}

/// Decides whether `app_id` needs an update to the bundle with hash
/// `candidate_hash`.
pub fn update_if_necessary_decision(
    index: &InstalledAppsIndex,
    app_id: &String,
    candidate_hash: u64,
) -> (d: UpdateDecision)
    ensures
        d == update_decision_spec(*index, app_id@, candidate_hash),
{
    match index.get(app_id) {
        None => UpdateDecision::AppNotFound,
        Some(recorded) => if recorded == candidate_hash {
            UpdateDecision::UpToDate
        } else {
            UpdateDecision::NeedsUpdate
        },
    }
}

/// Checks whether it is necessary to update the application, comparing the
/// candidate bundle's content hash with the recorded one.
///
/// Returns `Ok(NeedsUpdate)` when the caller must perform the full update,
/// `Ok(UpToDate)` when the bundle is byte-identical to the recorded install
/// (no network-visible work), and `Err(AppNotFound)` — before any
/// admin-socket work — when the application was never recorded as installed.
pub fn update_app_if_necessary(
    index: &InstalledAppsIndex,
    app_id: &String,
    current_app_bundle: &Vec<u8>,
) -> (r: Result<UpdateDecision, UpdateAppError>)
    ensures
        index.spec_lookup(app_id@) is None <==> r is Err,
        r is Err ==> r == Err::<UpdateDecision, UpdateAppError>(
            UpdateAppError::AppNotFound(*app_id),
        ),
        r is Ok ==> r->Ok_0 == update_decision_spec(
            *index,
            app_id@,
            content_hash_spec(current_app_bundle@),
        ) && r->Ok_0 != UpdateDecision::AppNotFound,
{
    let hash = content_hash(current_app_bundle);
    match update_if_necessary_decision(index, app_id, hash) {
        UpdateDecision::AppNotFound => Err(UpdateAppError::AppNotFound(app_id.clone())),
        UpdateDecision::UpToDate => Ok(UpdateDecision::UpToDate),
        UpdateDecision::NeedsUpdate => Ok(UpdateDecision::NeedsUpdate),
    }
}

/// A lifecycle event, observable by the host layer.
#[derive(Debug)]
pub enum AppEvent {
    /// Emitted after a successful installation, naming the application id.
    AppInstalled(String),
    /// Emitted after a successful update, naming the application id.
    AppUpdated(String),
}

impl AppEvent {
    /// The event's wire name, as the host UI layer observes it.
    pub fn event_name(&self) -> (r: &'static str)
        ensures
            self is AppInstalled ==> r@ == "app-installed"@,
            self is AppUpdated ==> r@ == "app-updated"@,
    {
        proof {
            reveal_strlit("app-installed");
            reveal_strlit("app-updated");
        }
        match self {
            AppEvent::AppInstalled(_) => "app-installed",
            AppEvent::AppUpdated(_) => "app-updated",
        }
    }

    /// The application id the event names.
    pub fn app_id(&self) -> (r: &String)
        ensures
            self matches AppEvent::AppInstalled(a) ==> r == a,
            self matches AppEvent::AppUpdated(a) ==> r == a,
    {
        match self {
            AppEvent::AppInstalled(a) => a,
            AppEvent::AppUpdated(a) => a,
        }
    }
}

/// Records a successful installation of `bundle` under `app_id` and names
/// the event to emit: the index afterwards maps `app_id` to the bundle's
/// content hash and every other application's record is unchanged.
pub fn complete_install(index: &mut InstalledAppsIndex, app_id: String, bundle: &Vec<u8>) -> (ev:
    AppEvent)
    requires
        old(index).wf(),
    ensures
        final(index).wf(),
        final(index).spec_lookup(app_id@) == Some(content_hash_spec(bundle@)),
        forall|id2: Seq<char>|
            id2 != app_id@ ==> final(index).spec_lookup(id2) == old(index).spec_lookup(id2),
        ev matches AppEvent::AppInstalled(a) && a@ == app_id@,
{
    let hash = content_hash(bundle);
    let ev = AppEvent::AppInstalled(app_id.clone());
    index.record_install(app_id, hash);
    ev
}

/// Records a successful update of `app_id` to `bundle` and names the event to
/// emit: the index afterwards maps `app_id` to the new bundle's content hash
/// and every other application's record is unchanged.
pub fn complete_update(index: &mut InstalledAppsIndex, app_id: String, bundle: &Vec<u8>) -> (ev:
    AppEvent)
    requires
        old(index).wf(),
    ensures
        final(index).wf(),
        final(index).spec_lookup(app_id@) == Some(content_hash_spec(bundle@)),
        forall|id2: Seq<char>|
            id2 != app_id@ ==> final(index).spec_lookup(id2) == old(index).spec_lookup(id2),
        ev matches AppEvent::AppUpdated(a) && a@ == app_id@,
{
    let hash = content_hash(bundle);
    let ev = AppEvent::AppUpdated(app_id.clone());
    index.record_install(app_id, hash);
    ev
}

/// Conditional updates are idempotent: once an index records the content hash
/// of a bundle for an application id — as both [`complete_install`] and
/// [`complete_update`] ensure — a conditional update of that application with
/// a byte-identical bundle decides `UpToDate`, i.e. performs no
/// network-visible update work.
pub proof fn lemma_update_if_necessary_idempotent(
    index: InstalledAppsIndex,
    id: Seq<char>,
    bundle: Seq<u8>,
)
    requires
        index.spec_lookup(id) == Some(content_hash_spec(bundle)),
    ensures
        update_decision_spec(index, id, content_hash_spec(bundle)) == UpdateDecision::UpToDate,
{
}

/// A conditional update of an application id that was never recorded as
/// installed decides `AppNotFound`, whatever the candidate bundle.
pub proof fn lemma_update_unknown_app_refused(
    index: InstalledAppsIndex,
    id: Seq<char>,
    candidate_hash: u64,
)
    requires
        index.spec_lookup(id) is None,
    ensures
        update_decision_spec(index, id, candidate_hash) == UpdateDecision::AppNotFound,
{
}

/// After an application is updated to a new bundle whose content hash differs
/// from the stale bundle's, the persisted hash has changed, and a conditional
/// update with the stale bundle still decides `NeedsUpdate`: it would trigger
/// another update, not a no-op.
pub proof fn lemma_stale_bundle_still_updates(
    index: InstalledAppsIndex,
    id: Seq<char>,
    stale_bundle: Seq<u8>,
    new_bundle: Seq<u8>,
)
    requires
        index.spec_lookup(id) == Some(content_hash_spec(new_bundle)),
        content_hash_spec(stale_bundle) != content_hash_spec(new_bundle),
    ensures
        index.spec_lookup(id) != Some(content_hash_spec(stale_bundle)),
        update_decision_spec(index, id, content_hash_spec(stale_bundle))
            == UpdateDecision::NeedsUpdate,
{
}

/// The phases of one install or update flow.
#[derive(Debug, PartialEq, Eq, Structural, Clone, Copy)]
pub enum InstallPhase {
    /// Nothing has happened yet.
    Idle,
    /// The bundle is being persisted to the bundle store.
    Storing,
    /// The bundle is persisted; the backend installation was requested.
    Requesting,
    /// The backend confirmed; the lifecycle event is being emitted.
    Notifying,
    /// The flow finished successfully.
    Complete,
    /// The flow stopped on a failure.
    Failed,
}

/// What the driver of the flow must do next.
#[derive(Debug, PartialEq, Eq, Structural, Clone, Copy)]
pub enum InstallAction {
    /// Persist the bundle to the bundle store.
    StoreBundle,
    /// Ask the backend's admin socket to install the bundle.
    RequestInstall,
    /// Record the install and emit the lifecycle event.
    EmitEvent,
    /// Do nothing further.
    Halt,
}

/// What the driver reports back to the flow.
#[derive(Debug, PartialEq, Eq, Structural, Clone, Copy)]
pub enum InstallEvent {
    /// The flow is started.
    Begin,
    /// The bundle was persisted.
    StoreOk,
    /// Persisting the bundle failed.
    StoreErr,
    /// The backend confirmed the installation.
    AdminOk,
    /// The backend refused the installation.
    AdminErr,
    /// The event was emitted.
    EmitOk,
}

/// The transition table of the flow: next phase and next action for a phase
/// and an event. Any event a phase does not expect fails the flow.
pub open spec fn install_transition_spec(phase: InstallPhase, event: InstallEvent) -> (
    InstallPhase,
    InstallAction,
) {
    match (phase, event) {
        (InstallPhase::Idle, InstallEvent::Begin) => (
            InstallPhase::Storing,
            InstallAction::StoreBundle,
        ),
        (InstallPhase::Storing, InstallEvent::StoreOk) => (
            InstallPhase::Requesting,
            InstallAction::RequestInstall,
        ),
        (InstallPhase::Requesting, InstallEvent::AdminOk) => (
            InstallPhase::Notifying,
            InstallAction::EmitEvent,
        ),
        (InstallPhase::Notifying, InstallEvent::EmitOk) => (
            InstallPhase::Complete,
            InstallAction::Halt,
        ),
        _ => (InstallPhase::Failed, InstallAction::Halt),
    }
}

/// Advances one install or update flow by one event.
pub fn install_transition(phase: InstallPhase, event: InstallEvent) -> (r: (
    InstallPhase,
    InstallAction,
))
    ensures
        r == install_transition_spec(phase, event),
{
    match (phase, event) {
        (InstallPhase::Idle, InstallEvent::Begin) => (
            InstallPhase::Storing,
            InstallAction::StoreBundle,
        ),
        (InstallPhase::Storing, InstallEvent::StoreOk) => (
            InstallPhase::Requesting,
            InstallAction::RequestInstall,
        ),
        (InstallPhase::Requesting, InstallEvent::AdminOk) => (
            InstallPhase::Notifying,
            InstallAction::EmitEvent,
        ),
        (InstallPhase::Notifying, InstallEvent::EmitOk) => (
            InstallPhase::Complete,
            InstallAction::Halt,
        ),
        _ => (InstallPhase::Failed, InstallAction::Halt),
    }
}

/// The phase reached by a run of the flow from `phase` over `events`.
pub open spec fn run_phase(phase: InstallPhase, events: Seq<InstallEvent>) -> InstallPhase
    decreases events.len(),
{
    if events.len() == 0 {
        phase
    } else {
        run_phase(install_transition_spec(phase, events[0]).0, events.drop_first())
    }
}

/// A backend installation is only ever requested from the `Storing` phase on
/// a `StoreOk` event: in every run of the flow that starts at `Idle`, the
/// bundle is persisted before the admin socket is asked to install it, so a
/// store failure prevents any backend-side installation.
pub proof fn lemma_install_requires_stored_bundle(
    phase: InstallPhase,
    event: InstallEvent,
    events: Seq<InstallEvent>,
)
    requires
        install_transition_spec(run_phase(phase, events), event).1
            == InstallAction::RequestInstall,
    ensures
        run_phase(phase, events) == InstallPhase::Storing,
        event == InstallEvent::StoreOk,
{
}

} // verus!
