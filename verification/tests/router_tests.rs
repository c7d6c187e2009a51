use holochain_runtime::error::Error;
use holochain_runtime::router::{
    asset_response, malformed_response, mime_type_for, parse_happ_request, ping_response,
    pong_iframe, route_request, uninitialized_response, AssetLookupOutcome, HappRequest, RoutePlan,
};

#[test]
fn ping_is_accepted_and_nonempty_before_backend() {
    // The liveness probe does not depend on backend readiness.
    let uri = b"happ://ping".to_vec();
    match route_request(&uri, false) {
        RoutePlan::Respond(resp) => {
            assert_eq!(resp.status, 202);
            assert!(!resp.body.is_empty());
            assert_eq!(resp.content_type.as_deref(), Some("text/html;charset=utf-8"));
        }
        RoutePlan::FetchAsset { .. } => panic!("ping must be answered at once"),
    }
}

#[test]
fn ping_is_accepted_after_backend_ready() {
    let uri = b"happ://ping".to_vec();
    match route_request(&uri, true) {
        RoutePlan::Respond(resp) => {
            assert_eq!(resp.status, 202);
            assert!(!resp.body.is_empty());
        }
        RoutePlan::FetchAsset { .. } => panic!("ping must be answered at once"),
    }
}

#[test]
fn unknown_app_before_init_is_server_error() {
    let uri = b"happ://unknown-app/index.html".to_vec();
    match route_request(&uri, false) {
        RoutePlan::Respond(resp) => {
            assert_eq!(resp.status, 500);
            assert_eq!(
                resp.body,
                b"Called http UI before initializing holochain".to_vec()
            );
        }
        RoutePlan::FetchAsset { .. } => panic!("must not reach the store before init"),
    }
}

#[test]
fn unknown_app_after_init_missing_asset_is_not_found() {
    let uri = b"happ://unknown-app/index.html".to_vec();
    match route_request(&uri, true) {
        RoutePlan::FetchAsset { app_id, asset_path } => {
            assert_eq!(app_id, b"unknown-app".to_vec());
            assert_eq!(asset_path, b"index.html".to_vec());
            let resp = asset_response(AssetLookupOutcome::NotFound);
            assert_eq!(resp.status, 404);
            assert!(resp.body.is_empty());
        }
        RoutePlan::Respond(_) => panic!("a ready backend must look the asset up"),
    }
}

#[test]
fn parse_splits_app_id_and_path_and_strips_query() {
    let uri = b"happ://myapp/assets/dir/file.css?version=2".to_vec();
    match parse_happ_request(&uri) {
        Ok(HappRequest::Asset { app_id, asset_path }) => {
            assert_eq!(app_id, b"myapp".to_vec());
            assert_eq!(asset_path, b"assets/dir/file.css".to_vec());
        }
        other => panic!("unexpected parse: {:?}", other),
    }
}

#[test]
fn parse_empty_remainder_is_default_document() {
    let uri = b"happ://myapp".to_vec();
    match parse_happ_request(&uri) {
        Ok(HappRequest::Asset { app_id, asset_path }) => {
            assert_eq!(app_id, b"myapp".to_vec());
            assert!(asset_path.is_empty());
        }
        other => panic!("unexpected parse: {:?}", other),
    }
}

#[test]
fn parse_without_scheme_separator_is_malformed() {
    let uri = b"no separator here".to_vec();
    match parse_happ_request(&uri) {
        Err(e) => assert_eq!(e, Error::MalformedResourceRequest),
        Ok(r) => panic!("unexpected parse: {:?}", r),
    }
    let resp = malformed_response();
    assert_eq!(resp.status, 400);
}

#[test]
fn parse_empty_app_id_is_malformed() {
    let uri = b"happ:///index.html".to_vec();
    match parse_happ_request(&uri) {
        Err(e) => assert_eq!(e, Error::MalformedResourceRequest),
        Ok(r) => panic!("unexpected parse: {:?}", r),
    }
}

#[test]
fn found_asset_gets_charset_suffixed_content_type() {
    let body = b"<html></html>".to_vec();
    let mime = mime_type_for(&b"index.html".to_vec());
    assert_eq!(mime.as_deref(), Some("text/html"));
    let resp = asset_response(AssetLookupOutcome::Found(body.clone(), mime));
    assert_eq!(resp.status, 202);
    assert_eq!(resp.body, body);
    assert_eq!(resp.content_type.as_deref(), Some("text/html;charset=utf-8"));
}

#[test]
fn found_asset_without_mime_gets_bare_charset() {
    let resp = asset_response(AssetLookupOutcome::Found(b"data".to_vec(), None));
    assert_eq!(resp.status, 202);
    assert_eq!(resp.content_type.as_deref(), Some("charset=utf-8"));
}

#[test]
fn failed_lookup_is_server_error_with_detail() {
    let resp = asset_response(AssetLookupOutcome::LookupFailed(b"disk on fire".to_vec()));
    assert_eq!(resp.status, 500);
    assert_eq!(resp.body, b"disk on fire".to_vec());
}

#[test]
fn mime_inference_by_extension() {
    assert_eq!(mime_type_for(&b"a/b/script.js".to_vec()).as_deref(), Some("text/javascript"));
    assert_eq!(mime_type_for(&b"style.css".to_vec()).as_deref(), Some("text/css"));
    assert_eq!(mime_type_for(&b"logo.svg".to_vec()).as_deref(), Some("image/svg+xml"));
    assert_eq!(mime_type_for(&b"mod.wasm".to_vec()).as_deref(), Some("application/wasm"));
    assert_eq!(mime_type_for(&b"noextension".to_vec()), None);
    assert_eq!(mime_type_for(&b"archive.tar.unknownext".to_vec()), None);
}

#[test]
fn pong_document_is_fixed_html() {
    let html = pong_iframe();
    assert!(html.contains("pong"));
    let resp = ping_response();
    assert_eq!(resp.body, html.as_bytes().to_vec());
}

#[test]
fn uninitialized_response_is_500() {
    let resp = uninitialized_response();
    assert_eq!(resp.status, 500);
    assert!(!resp.body.is_empty());
}

#[test]
fn any_uri_with_the_ping_prefix_is_the_liveness_probe() {
    // The reserved host is matched by prefix, query string and all.
    let uri = b"happ://ping?probe=1".to_vec();
    match route_request(&uri, false) {
        RoutePlan::Respond(resp) => assert_eq!(resp.status, 202),
        RoutePlan::FetchAsset { .. } => panic!("ping must be answered at once"),
    }
}

#[test]
fn query_on_a_bare_app_id_is_stripped() {
    let uri = b"happ://myapp?version=3".to_vec();
    match parse_happ_request(&uri) {
        Ok(HappRequest::Asset { app_id, asset_path }) => {
            assert_eq!(app_id, b"myapp".to_vec());
            assert!(asset_path.is_empty());
        }
        other => panic!("unexpected parse: {:?}", other),
    }
}
