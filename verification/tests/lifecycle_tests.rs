use holochain_runtime::digest::content_hash;
use holochain_runtime::error::UpdateAppError;
use holochain_runtime::index::InstalledAppsIndex;
use holochain_runtime::lifecycle::{
    install_transition, update_app_if_necessary, update_if_necessary_decision, AppEvent,
    InstallAction, InstallEvent, InstallPhase, UpdateDecision,
};
use holochain_runtime::runtime::HolochainRuntime;
use holochain_runtime::filesystem::FileSystem;

fn runtime() -> HolochainRuntime {
    let (fs, _dirs) = FileSystem::new(String::from("/data"), String::from("/config"));
    HolochainRuntime::new(fs, 4000, InstalledAppsIndex::new())
}

#[test]
fn update_of_never_installed_app_fails_with_app_not_found() {
    // No admin-socket work happens: the decision is refused up front.
    let rt = runtime();
    let bundle = b"bundle bytes".to_vec();
    let r = rt.update_app_if_necessary(&String::from("ghost-app"), &bundle);
    assert_eq!(r, Err(UpdateAppError::AppNotFound(String::from("ghost-app"))));
}

#[test]
fn update_with_identical_bundle_is_a_no_op() {
    let mut rt = runtime();
    let bundle = b"bundle bytes v1".to_vec();
    let ev = rt.complete_install(String::from("app"), &bundle);
    assert!(matches!(ev, AppEvent::AppInstalled(a) if a == "app"));

    // First conditional update with the byte-identical bundle: no work.
    let r1 = rt.update_app_if_necessary(&String::from("app"), &bundle);
    assert_eq!(r1, Ok(UpdateDecision::UpToDate));
    // Calling it twice changes nothing: still no network-visible work.
    let r2 = rt.update_app_if_necessary(&String::from("app"), &bundle);
    assert_eq!(r2, Ok(UpdateDecision::UpToDate));
}

#[test]
fn update_with_different_bundle_changes_recorded_hash() {
    let mut rt = runtime();
    let v1 = b"bundle bytes v1".to_vec();
    let v2 = b"bundle bytes v2".to_vec();
    assert_ne!(content_hash(&v1), content_hash(&v2));

    rt.complete_install(String::from("app"), &v1);
    let before = rt.installed_apps.get(&String::from("app"));
    assert_eq!(before, Some(content_hash(&v1)));

    let r = rt.update_app_if_necessary(&String::from("app"), &v2);
    assert_eq!(r, Ok(UpdateDecision::NeedsUpdate));
    let ev = rt.complete_update(String::from("app"), &v2);
    assert!(matches!(ev, AppEvent::AppUpdated(a) if a == "app"));

    // The persisted hash changed.
    let after = rt.installed_apps.get(&String::from("app"));
    assert_eq!(after, Some(content_hash(&v2)));
    assert_ne!(before, after);

    // The stale bundle is still "different" and triggers another update.
    let stale = rt.update_app_if_necessary(&String::from("app"), &v1);
    assert_eq!(stale, Ok(UpdateDecision::NeedsUpdate));
}

#[test]
fn index_records_are_per_application() {
    let mut index = InstalledAppsIndex::new();
    index.record_install(String::from("one"), 11);
    index.record_install(String::from("two"), 22);
    assert_eq!(index.get(&String::from("one")), Some(11));
    assert_eq!(index.get(&String::from("two")), Some(22));
    assert_eq!(index.get(&String::from("three")), None);
    index.record_install(String::from("one"), 33);
    assert_eq!(index.get(&String::from("one")), Some(33));
    assert_eq!(index.get(&String::from("two")), Some(22));
}

#[test]
fn decision_matches_recorded_hash() {
    let mut index = InstalledAppsIndex::new();
    index.record_install(String::from("app"), 7);
    assert_eq!(
        update_if_necessary_decision(&index, &String::from("app"), 7),
        UpdateDecision::UpToDate
    );
    assert_eq!(
        update_if_necessary_decision(&index, &String::from("app"), 8),
        UpdateDecision::NeedsUpdate
    );
    assert_eq!(
        update_if_necessary_decision(&index, &String::from("other"), 7),
        UpdateDecision::AppNotFound
    );
    let bundle = b"xyz".to_vec();
    let r = update_app_if_necessary(&index, &String::from("other"), &bundle);
    assert_eq!(r, Err(UpdateAppError::AppNotFound(String::from("other"))));
}

#[test]
fn install_flow_stores_before_requesting() {
    let (p, a) = install_transition(InstallPhase::Idle, InstallEvent::Begin);
    assert_eq!(p, InstallPhase::Storing);
    assert_eq!(a, InstallAction::StoreBundle);

    // Only a successful store leads to the admin-socket request.
    let (p, a) = install_transition(InstallPhase::Storing, InstallEvent::StoreOk);
    assert_eq!(p, InstallPhase::Requesting);
    assert_eq!(a, InstallAction::RequestInstall);

    // A store failure halts the flow: no dangling backend-side install.
    let (p, a) = install_transition(InstallPhase::Storing, InstallEvent::StoreErr);
    assert_eq!(p, InstallPhase::Failed);
    assert_eq!(a, InstallAction::Halt);

    let (p, a) = install_transition(InstallPhase::Requesting, InstallEvent::AdminOk);
    assert_eq!(p, InstallPhase::Notifying);
    assert_eq!(a, InstallAction::EmitEvent);

    let (p, a) = install_transition(InstallPhase::Notifying, InstallEvent::EmitOk);
    assert_eq!(p, InstallPhase::Complete);
    assert_eq!(a, InstallAction::Halt);
}

#[test]
fn content_hash_is_deterministic() {
    let a = b"identical".to_vec();
    let b = b"identical".to_vec();
    assert_eq!(content_hash(&a), content_hash(&b));
    assert_ne!(content_hash(&a), content_hash(&b"different".to_vec()));
    // The empty bundle folds to the bare offset basis.
    assert_eq!(content_hash(&Vec::new()), 0xcbf29ce484222325);
}

#[test]
fn events_carry_their_wire_names() {
    let mut rt = runtime();
    let bundle = b"bytes".to_vec();
    let installed = rt.complete_install(String::from("app"), &bundle);
    assert_eq!(installed.event_name(), "app-installed");
    assert_eq!(installed.app_id(), "app");
    let updated = rt.complete_update(String::from("app"), &bundle);
    assert_eq!(updated.event_name(), "app-updated");
    assert_eq!(updated.app_id(), "app");
}
