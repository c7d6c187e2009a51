use holochain_runtime::filesystem::FileSystem;
use holochain_runtime::identifier::{validate_identifier, IdentifierError};
use holochain_runtime::scopes::{get_scope_open_and_close_char_indexes, ScopeError};
use holochain_runtime::settings::{conductor_config, override_gossip_arc_clamping};

#[test]
fn filesystem_layout_paths() {
    let (fs, dirs) = FileSystem::new(String::from("/data"), String::from("/config"));
    assert_eq!(fs.keystore_dir(), "/data/keystore");
    assert_eq!(fs.keystore_config_path(), "/data/keystore/lair-keystore-config.yaml");
    assert_eq!(fs.keystore_store_path(), "/data/keystore/store_file");
    assert_eq!(fs.conductor_dir(), "/data/conductor");
    assert_eq!(fs.ui_store().ui_path(&String::from("forum")), "/data/uis/forum");
    assert_eq!(
        fs.webapp_store().webhapp_package_path(&String::from("abc123")),
        "/data/webhapps/abc123/package.webhapp"
    );
    assert_eq!(fs.icon_store().icon_path(&String::from("hash9")), "/data/icons/hash9");
    assert_eq!(dirs, vec![
        String::from("/data/webhapps"),
        String::from("/data/icons"),
        String::from("/data/uis"),
        String::from("/data/keystore"),
    ]);
}

#[test]
fn conductor_settings_carry_the_plain_values() {
    let (fs, _dirs) = FileSystem::new(String::from("/data"), String::from("/config"));
    let settings = conductor_config(
        &fs,
        4100,
        fs.keystore_dir(),
        String::from("https://bootstrap.example"),
        String::from("wss://signal.example"),
        override_gossip_arc_clamping(true),
    );
    assert_eq!(settings.data_root_path, "/data/conductor");
    assert_eq!(settings.keystore_dir, "/data/keystore");
    assert_eq!(settings.admin_port, 4100);
    assert_eq!(settings.bootstrap_url, "https://bootstrap.example");
    assert_eq!(settings.signal_url, "wss://signal.example");
    assert_eq!(settings.gossip_arc_clamping.as_deref(), Some("empty"));
    assert_eq!(override_gossip_arc_clamping(false), None);
}

#[test]
fn identifier_with_three_segments_is_accepted() {
    assert!(validate_identifier(&String::from("org.myorg.myapp")).is_ok());
}

#[test]
fn identifier_with_dash_or_underscore_is_rejected() {
    let r = validate_identifier(&String::from("org.my-org.myapp"));
    match r {
        Err(IdentifierError::InvalidIdentifier(msg)) => {
            assert_eq!(msg, "The bundle identifier can only contain alphanumerical characters.")
        }
        Ok(()) => panic!("a dash must be rejected"),
    }
    assert!(validate_identifier(&String::from("org.my_org.myapp")).is_err());
}

#[test]
fn identifier_with_wrong_segment_count_is_rejected() {
    let r = validate_identifier(&String::from("org.myapp"));
    match r {
        Err(IdentifierError::InvalidIdentifier(msg)) => assert_eq!(
            msg,
            "The bundle identifier must contain three segments split by points (eg. 'org.myorg.myapp')."
        ),
        Ok(()) => panic!("two segments must be rejected"),
    }
    assert!(validate_identifier(&String::from("a.b.c.d")).is_err());
    assert!(validate_identifier(&String::from("abc")).is_err());
}

#[test]
fn scope_indexes_find_the_matching_brace() {
    let text = String::from("head devShells.default = pkgs.mkShell { inner = { x = 1; }; } tail");
    let opener = String::from("devShells.default = pkgs.mkShell {");
    let (open, close) = get_scope_open_and_close_char_indexes(&text, &opener).unwrap();
    assert_eq!(text.as_bytes()[open], b'{');
    assert_eq!(text.as_bytes()[close], b'}');
    assert_eq!(open, 5 + opener.len() - 1);
    assert_eq!(&text[open..=close], "{ inner = { x = 1; }; }");
}

#[test]
fn scope_opener_not_found_is_reported() {
    let text = String::from("nothing to see");
    let opener = String::from("mkShell {");
    assert_eq!(
        get_scope_open_and_close_char_indexes(&text, &opener),
        Err(ScopeError::ScopeOpenerNotFound)
    );
}

#[test]
fn unbalanced_braces_are_malformed() {
    let text = String::from("shell { open { forever");
    let opener = String::from("shell {");
    assert_eq!(
        get_scope_open_and_close_char_indexes(&text, &opener),
        Err(ScopeError::MalformedScopes)
    );
}
