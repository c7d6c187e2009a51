use holochain_runtime::filesystem::FileSystem;
use holochain_runtime::index::InstalledAppsIndex;
use holochain_runtime::runtime::HolochainRuntime;
use holochain_runtime::session::{
    session_allowed_origins, token_issue_settings, AllowedOrigins, AppWebsocketAuth, SessionCache,
};

#[test]
fn session_cache_starts_empty() {
    let cache = SessionCache::new();
    assert!(cache.get_session(&String::from("app")).is_none());
}

#[test]
fn second_request_reuses_the_created_credential() {
    // A serialized get-or-create: the first request misses, creates one
    // credential over the admin socket, and caches it; the second request for
    // the same id must return identical credentials without creating again.
    let mut cache = SessionCache::new();
    let app = String::from("forum");

    assert!(cache.get_session(&app).is_none());
    let created = AppWebsocketAuth { app_websocket_port: 4111, token: vec![9, 8, 7] };
    let returned = cache.insert_session(app.clone(), created);

    let second = cache.get_session(&app).expect("the credential must be cached now");
    assert_eq!(second.app_websocket_port, returned.app_websocket_port);
    assert_eq!(second.token, returned.token);

    let third = cache.get_session(&app).expect("still cached");
    assert_eq!(third.app_websocket_port, 4111);
    assert_eq!(third.token, vec![9, 8, 7]);
}

#[test]
fn credentials_are_per_application_id() {
    let mut cache = SessionCache::new();
    cache.insert_session(
        String::from("one"),
        AppWebsocketAuth { app_websocket_port: 1001, token: vec![1] },
    );
    cache.insert_session(
        String::from("two"),
        AppWebsocketAuth { app_websocket_port: 1002, token: vec![2] },
    );
    let one = cache.get_session(&String::from("one")).unwrap();
    let two = cache.get_session(&String::from("two")).unwrap();
    assert_eq!(one.app_websocket_port, 1001);
    assert_eq!(two.app_websocket_port, 1002);
    assert!(cache.get_session(&String::from("three")).is_none());
}

#[test]
fn credential_clone_preserves_port_and_token() {
    let auth = AppWebsocketAuth { app_websocket_port: 7777, token: vec![1, 2, 3, 4] };
    let copy = auth.clone();
    assert_eq!(copy.app_websocket_port, auth.app_websocket_port);
    assert_eq!(copy.token, auth.token);
}

#[test]
fn runtime_session_accessors_share_one_cache() {
    let (fs, _dirs) = FileSystem::new(String::from("/data"), String::from("/config"));
    let mut rt = HolochainRuntime::new(fs, 4000, InstalledAppsIndex::new());
    let app = String::from("notebook");
    assert!(rt.get_app_websocket_auth(&app).is_none());
    rt.record_app_websocket_auth(
        app.clone(),
        AppWebsocketAuth { app_websocket_port: 4501, token: vec![42] },
    );
    let got = rt.get_app_websocket_auth(&app).unwrap();
    assert_eq!(got.app_websocket_port, 4501);
    assert_eq!(got.token, vec![42]);
}

#[test]
fn development_mode_allows_any_origin() {
    assert!(matches!(session_allowed_origins(&String::from("forum"), true), AllowedOrigins::Any));
}

#[test]
fn production_mode_narrows_to_the_apps_origin() {
    match session_allowed_origins(&String::from("forum"), false) {
        AllowedOrigins::Origins(v) => assert_eq!(v, vec![String::from("happ://forum")]),
        AllowedOrigins::Any => panic!("production must narrow the origin"),
    }
}

#[test]
fn issued_tokens_are_long_lived_and_multi_use() {
    let settings = token_issue_settings(String::from("forum"));
    assert_eq!(settings.installed_app_id, "forum");
    assert_eq!(settings.expiry_seconds, 999999999);
    assert!(!settings.single_use);
}
