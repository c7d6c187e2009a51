use holochain_runtime::runtime::{local_connect_address, local_probe_address};
use holochain_runtime::session::AppWebsocketAuth;
use holochain_runtime::window::{
    happ_origin, join_token_decimals, launcher_env, main_window_url, u64_decimal_string,
    WebHappWindowBuilder,
};

#[test]
fn happ_origin_prefixes_the_scheme() {
    assert_eq!(happ_origin(&String::from("forum")), "happ://forum");
}

#[test]
fn builder_defaults_label_to_app_id_and_title_to_label() {
    let resolved = WebHappWindowBuilder::new(String::from("forum")).resolve();
    assert_eq!(resolved.label, "forum");
    assert_eq!(resolved.title, "forum");
    assert_eq!(resolved.url, "happ://forum/");
}

#[test]
fn builder_overrides_apply_in_order() {
    let resolved = WebHappWindowBuilder::new(String::from("forum"))
        .label(String::from("main"))
        .url_path(String::from("settings/index.html"))
        .resolve();
    assert_eq!(resolved.label, "main");
    assert_eq!(resolved.title, "main");
    assert_eq!(resolved.url, "happ://forum/settings/index.html");

    let titled = WebHappWindowBuilder::new(String::from("forum"))
        .title(String::from("Forum"))
        .webview_url(String::from("happ://forum/other"))
        .resolve();
    assert_eq!(titled.label, "forum");
    assert_eq!(titled.title, "Forum");
    assert_eq!(titled.url, "happ://forum/other");
}

#[test]
fn token_join_renders_comma_separated_decimals() {
    assert_eq!(join_token_decimals(&vec![1, 2, 3]), "1,2,3");
    assert_eq!(join_token_decimals(&vec![0, 250, 17]), "0,250,17");
    assert_eq!(join_token_decimals(&vec![]), "");
    assert_eq!(join_token_decimals(&vec![255]), "255");
}

#[test]
fn launcher_env_carries_port_id_and_joined_token() {
    let auth = AppWebsocketAuth { app_websocket_port: 4222, token: vec![10, 200] };
    let env = launcher_env(&String::from("forum"), &auth);
    assert_eq!(env.app_interface_port, 4222);
    assert_eq!(env.installed_app_id, "forum");
    assert_eq!(env.token_joined, "10,200");
}

#[test]
fn decimal_rendering_is_exact() {
    assert_eq!(u64_decimal_string(0), "0");
    assert_eq!(u64_decimal_string(65535), "65535");
    assert_eq!(u64_decimal_string(18446744073709551615), "18446744073709551615");
}

#[test]
fn connect_addresses_name_the_port() {
    assert_eq!(local_connect_address(4000), "localhost:4000");
    assert_eq!(local_probe_address(4000), "127.0.0.1:4000");
}

#[test]
fn main_window_url_defaults_to_the_entry_document() {
    assert_eq!(main_window_url(None), "index.html/");
    assert_eq!(main_window_url(Some(String::from("settings"))), "index.html/settings");
}
