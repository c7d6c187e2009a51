//! Routing of `happ://` resource requests.
//!
//! A request URI `happ://<app_id>/<relative_path>[?query]` is parsed into the
//! application id and the relative asset path; the reserved host `ping` is
//! answered immediately with a fixed liveness document, before and regardless
//! of backend readiness. Asset bytes themselves come from the UI-asset store
//! on disk; the routing functions here take the outcome of that lookup as an
//! argument and fix the response for every case: asset bytes with a
//! content type on success, an empty not-found response when the asset is
//! absent, a server error carrying the failure detail when the lookup itself
//! failed or the backend is not yet initialized, and a bad-request response
//! for a malformed URI.

use vstd::prelude::*;
use vstd::slice::slice_to_vec;
use vstd::string::StringSliceAdditionalSpecFns;

use crate::bytesutil::{
    bytes_eq, bytes_range, bytes_starts_with, find_byte, first_index_of, last_index_of, rfind_byte,
};
use crate::error::Error;

verus! {

/// HTTP status of an accepted response.
pub const STATUS_ACCEPTED: u16 = 202;

/// HTTP status of a bad-request response.
pub const STATUS_BAD_REQUEST: u16 = 400;

/// HTTP status of a not-found response.
pub const STATUS_NOT_FOUND: u16 = 404;

/// HTTP status of a server-error response.
pub const STATUS_INTERNAL_SERVER_ERROR: u16 = 500;

/// A protocol-level response to a resource request.
#[derive(Debug)]
pub struct HttpResponse {
    /// The status code.
    pub status: u16,
    /// The `Content-Type` header value, where one is set.
    pub content_type: Option<String>,
    /// The response body.
    pub body: Vec<u8>,
}

/// A parsed resource request.
#[derive(Debug)]
pub enum HappRequest {
    /// The reserved liveness probe.
    Ping,
    /// A request for an asset of an installed application.
    Asset {
        /// The application id: the first path segment after the scheme.
        app_id: Vec<u8>,
        /// The relative asset path: the remaining segments, `/`-joined;
        /// empty for the application's default document.
        asset_path: Vec<u8>,
    },
}

/// A parsed resource request, at the specification level.
pub enum ParsedRequest {
    /// The reserved liveness probe.
    Ping,
    /// A request for an asset of an installed application.
    Asset {
        /// The application id.
        app_id: Seq<u8>,
        /// The relative asset path.
        asset_path: Seq<u8>,
    },
    /// A URI that misses required segments.
    Malformed,
}

/// Whether position `i` of `s` holds the `://` scheme separator.
pub open spec fn sep_at(s: Seq<u8>, i: int) -> bool {
    &&& 0 <= i
    &&& i + 3 <= s.len()
    &&& s[i] == 0x3au8
    &&& s[i + 1] == 0x2fu8
    &&& s[i + 2] == 0x2fu8
}

/// Index of the first `://` separator in `s`, if any.
pub open spec fn first_sep_index(s: Seq<u8>) -> Option<int>
    decreases s.len(),
{
    if s.len() < 3 {
        None
    } else if sep_at(s, 0) {
        Some(0int)
    } else {
        match first_sep_index(s.drop_first()) {
            Some(i) => Some(i + 1),
            None => None,
        }
    }
}

/// A separator at `i` with none before it is the first separator.
proof fn lemma_first_sep_index_hit(s: Seq<u8>, i: int)
    requires
        sep_at(s, i),
        forall|k: int| 0 <= k < i ==> !sep_at(s, k),
    ensures
        first_sep_index(s) == Some(i),
    decreases i,
{
    assert(forall|k: int| 0 <= k < s.len() - 1 ==> s.drop_first()[k] == s[k + 1]);
    if i > 0 {
        assert forall|k: int| 0 <= k < i - 1 implies !sep_at(s.drop_first(), k) by {
            assert(!sep_at(s, k + 1));
            if k + 3 <= s.drop_first().len() {
                assert(s.drop_first()[k] == s[k + 1]);
                assert(s.drop_first()[k + 1] == s[k + 2]);
                assert(s.drop_first()[k + 2] == s[k + 3]);
            }
        }
        assert(sep_at(s.drop_first(), i - 1));
        lemma_first_sep_index_hit(s.drop_first(), i - 1);
    }
}

/// No separator anywhere means no first separator.
proof fn lemma_first_sep_index_miss(s: Seq<u8>)
    requires
        forall|k: int| 0 <= k < s.len() ==> !sep_at(s, k),
    ensures
        first_sep_index(s) is None,
    decreases s.len(),
{
    if s.len() >= 3 {
        assert(forall|k: int| 0 <= k < s.len() - 1 ==> s.drop_first()[k] == s[k + 1]);
        assert forall|k: int| 0 <= k < s.drop_first().len() implies !sep_at(s.drop_first(), k) by {
            assert(!sep_at(s, k + 1));
            if k + 3 <= s.drop_first().len() {
                assert(s.drop_first()[k] == s[k + 1]);
                assert(s.drop_first()[k + 1] == s[k + 2]);
                assert(s.drop_first()[k + 2] == s[k + 3]);
            }
        }
        lemma_first_sep_index_miss(s.drop_first());
    }
}

/// Finds the first `://` separator in `v`.
fn find_sep(v: &Vec<u8>) -> (r: Option<usize>)
    ensures
        r is None <==> first_sep_index(v@) is None,
        r matches Some(i) ==> first_sep_index(v@) == Some(i as int) && i + 3 <= v@.len(),
{
    let n = v.len();
    if n < 3 {
        proof {
            lemma_first_sep_index_miss(v@);
        }
        return None;
    }
    let m = n - 3;
    let mut i: usize = 0;
    while i <= m
        invariant
            n == v@.len(),
            m == n - 3,
            3 <= n,
            i <= m + 1,
            forall|k: int| 0 <= k < i ==> !sep_at(v@, k),
        decreases m + 1 - i,
    {
        if v[i] == 0x3a && v[i + 1] == 0x2f && v[i + 2] == 0x2f {
            proof {
                lemma_first_sep_index_hit(v@, i as int);
            }
            return Some(i);
        }
        i = i + 1;
    }
    proof {
        assert(forall|k: int| 0 <= k < v@.len() ==> !sep_at(v@, k));
        lemma_first_sep_index_miss(v@);
    }
    None
}

/// The bytes of the reserved liveness prefix, `happ://ping`.
pub open spec fn spec_ping_prefix() -> Seq<u8> {
    "happ://ping".spec_bytes()
}

/// Whether the URI begins with the reserved liveness prefix.
pub open spec fn is_ping_request(u: Seq<u8>) -> bool {
    u.len() >= spec_ping_prefix().len() && u.subrange(
        0,
        spec_ping_prefix().len() as int,
    ) == spec_ping_prefix()
}

/// How a URI parses: the liveness probe, an asset request with its
/// application id and relative path, or a malformed request.
///
/// The application id is the first `/`-separated segment after the first
/// `://`, with any query string (from the first `?`) stripped; the asset path
/// is everything after that segment. A URI with no `://`, or with an empty
/// application id segment, is malformed.
pub open spec fn parse_request_spec(u: Seq<u8>) -> ParsedRequest {
    if is_ping_request(u) {
        ParsedRequest::Ping
    } else {
        match first_sep_index(u) {
            None => ParsedRequest::Malformed,
            Some(i) => {
                let rest = u.skip(i + 3);
                let body = match first_index_of(rest, 0x3fu8) {
                    Some(q) => rest.take(q),
                    None => rest,
                };
                match first_index_of(body, 0x2fu8) {
                    Some(s) => if s == 0 {
                        ParsedRequest::Malformed
                    } else {
                        ParsedRequest::Asset {
                            app_id: body.take(s),
                            asset_path: body.skip(s + 1),
                        }
                    },
                    None => if body.len() == 0 {
                        ParsedRequest::Malformed
                    } else {
                        ParsedRequest::Asset { app_id: body, asset_path: Seq::empty() }
                    },
                }
            },
        }
    }
}

/// Parses a resource-request URI.
///
/// Returns the liveness probe for any URI beginning with `happ://ping`, the
/// application id and relative asset path for a well-formed asset URI, and
/// `MalformedResourceRequest` for a URI that misses required segments.
pub fn parse_happ_request(uri: &Vec<u8>) -> (r: Result<HappRequest, Error>)
    ensures
        parse_request_spec(uri@) is Ping <==> r matches Ok(HappRequest::Ping),
        parse_request_spec(uri@) is Malformed <==> (r matches Err(e) && e
            == Error::MalformedResourceRequest),
        parse_request_spec(uri@) matches ParsedRequest::Asset { app_id: a, asset_path: p } ==> (
        r matches Ok(HappRequest::Asset { app_id, asset_path }) && app_id@ == a && asset_path@
            == p),
        r is Ok && !(r matches Ok(HappRequest::Ping)) ==> parse_request_spec(uri@) is Asset,
{
    if bytes_starts_with(uri, "happ://ping".as_bytes()) {
        return Ok(HappRequest::Ping);
    }
    let sep = find_sep(uri);
    match sep {
        None => Err(Error::MalformedResourceRequest),
        Some(i) => {
            let n = uri.len();
            proof {
                assert(i + 3 <= n);
            }
            let rest = bytes_range(uri, i + 3, n);
            proof {
                assert(rest@ =~= uri@.skip(i + 3));
            }
            let body = match find_byte(&rest, 0x3f) {
                Some(q) => {
                    let b = bytes_range(&rest, 0, q);
                    proof {
                        assert(b@ =~= rest@.take(q as int));
                    }
                    b
                },
                None => rest,
            };
            match find_byte(&body, 0x2f) {
                Some(s) => {
                    if s == 0 {
                        Err(Error::MalformedResourceRequest)
                    } else {
                        let app_id = bytes_range(&body, 0, s);
                        let asset_path = bytes_range(&body, s + 1, body.len());
                        proof {
                            assert(app_id@ =~= body@.take(s as int));
                            assert(asset_path@ =~= body@.skip(s + 1));
                        }
                        Ok(HappRequest::Asset { app_id, asset_path })
                    }
                },
                None => {
                    if body.len() == 0 {
                        Err(Error::MalformedResourceRequest)
                    } else {
                        Ok(HappRequest::Asset { app_id: body, asset_path: Vec::new() })
                    }
                },
            }
        },
    }
}

/// The fixed liveness document, as characters.
pub open spec fn spec_pong_html() -> Seq<char> {
    "<html><head></head><body><script>window.onload = () => window.parent.postMessage('pong', '*');</script></body></html>"@
}

/// The bytes of the fixed liveness document.
pub open spec fn spec_pong_bytes() -> Seq<u8> {
    vstd::utf8::encode_utf8(spec_pong_html())
}

/// The encoding of a nonempty character sequence is nonempty.
pub proof fn lemma_encode_utf8_nonempty(chars: Seq<char>)
    requires
        chars.len() > 0,
    ensures
        vstd::utf8::encode_utf8(chars).len() > 0,
{
    assert(vstd::utf8::encode_scalar(chars[0] as u32).len() >= 1);
}

/// The liveness document is not empty.
pub proof fn lemma_pong_body_nonempty()
    ensures
        spec_pong_bytes().len() > 0,
{
    reveal_strlit(
        "<html><head></head><body><script>window.onload = () => window.parent.postMessage('pong', '*');</script></body></html>",
    );
    lemma_encode_utf8_nonempty(spec_pong_html());
}

/// The fixed small document served for the liveness probe.
pub fn pong_iframe() -> (r: String)
    ensures
        r@ == spec_pong_html(),
{
    "<html><head></head><body><script>window.onload = () => window.parent.postMessage('pong', '*');</script></body></html>".to_owned()
}

/// The response to the liveness probe: always accepted, with the fixed
/// nonempty document, whatever the backend's state.
pub fn ping_response() -> (r: HttpResponse)
    ensures
        r.status == STATUS_ACCEPTED,
        r.body@ == spec_pong_bytes(),
        r.body@.len() > 0,
        r.content_type matches Some(c) && c@ == "text/html;charset=utf-8"@,
{
    let html = pong_iframe();
    let body = slice_to_vec(html.as_str().as_bytes());
    proof {
        lemma_pong_body_nonempty();
    }
    HttpResponse {
        status: STATUS_ACCEPTED,
        content_type: Some("text/html;charset=utf-8".to_owned()),
        body,
    }
}

/// The server-error response for a request that arrives before the backend
/// is initialized.
pub fn uninitialized_response() -> (r: HttpResponse)
    ensures
        r.status == STATUS_INTERNAL_SERVER_ERROR,
        r.body@ == "Called http UI before initializing holochain".spec_bytes(),
        r.content_type is None,
{
    let msg: &str = "Called http UI before initializing holochain";
    HttpResponse { status: STATUS_INTERNAL_SERVER_ERROR, content_type: None, body: slice_to_vec(msg.as_bytes()) }
}

/// The bad-request response for a malformed URI.
pub fn malformed_response() -> (r: HttpResponse)
    ensures
        r.status == STATUS_BAD_REQUEST,
        r.body@ == "Malformed request: not enough items".spec_bytes(),
        r.content_type is None,
{
    let msg: &str = "Malformed request: not enough items";
    HttpResponse { status: STATUS_BAD_REQUEST, content_type: None, body: slice_to_vec(msg.as_bytes()) }
}

/// The MIME type inferred for an asset's file extension, where one is known.
pub open spec fn mime_of_ext(ext: Seq<u8>) -> Option<Seq<char>> {
    if ext == "html".spec_bytes() {
        Some("text/html"@)
    } else if ext == "js".spec_bytes() || ext == "mjs".spec_bytes() {
        Some("text/javascript"@)
    } else if ext == "css".spec_bytes() {
        Some("text/css"@)
    } else if ext == "json".spec_bytes() {
        Some("application/json"@)
    } else if ext == "png".spec_bytes() {
        Some("image/png"@)
    } else if ext == "svg".spec_bytes() {
        Some("image/svg+xml"@)
    } else if ext == "ico".spec_bytes() {
        Some("image/x-icon"@)
    } else if ext == "wasm".spec_bytes() {
        Some("application/wasm"@)
    } else if ext == "txt".spec_bytes() {
        Some("text/plain"@)
    } else {
        None
    }
}

/// The MIME type inferred for an asset path: decided by what follows the last
/// `.`, if anything does.
pub open spec fn mime_for_path(path: Seq<u8>) -> Option<Seq<char>> {
    match last_index_of(path, 0x2eu8) {
        None => None,
        Some(i) => mime_of_ext(path.skip(i + 1)),
    }
}

/// Infers the MIME type of an asset from its path's extension.
pub fn mime_type_for(asset_path: &Vec<u8>) -> (r: Option<String>)
    ensures
        r is None <==> mime_for_path(asset_path@) is None,
        r matches Some(m) ==> Some(m@) == mime_for_path(asset_path@),
{
    let i = match rfind_byte(asset_path, 0x2e) {
        None => {
            return None;
        },
        Some(i) => i,
    };
    let n = asset_path.len();
    proof {
        assert(i < n);
    }
    let ext = bytes_range(asset_path, i + 1, n);
    proof {
        assert(ext@ =~= asset_path@.skip(i + 1));
    }
    if bytes_eq(&ext, "html".as_bytes()) {
        Some("text/html".to_owned())
    } else if bytes_eq(&ext, "js".as_bytes()) || bytes_eq(&ext, "mjs".as_bytes()) {
        Some("text/javascript".to_owned())
    } else if bytes_eq(&ext, "css".as_bytes()) {
        Some("text/css".to_owned())
    } else if bytes_eq(&ext, "json".as_bytes()) {
        Some("application/json".to_owned())
    } else if bytes_eq(&ext, "png".as_bytes()) {
        Some("image/png".to_owned())
    } else if bytes_eq(&ext, "svg".as_bytes()) {
        Some("image/svg+xml".to_owned())
    } else if bytes_eq(&ext, "ico".as_bytes()) {
        Some("image/x-icon".to_owned())
    } else if bytes_eq(&ext, "wasm".as_bytes()) {
        Some("application/wasm".to_owned())
    } else if bytes_eq(&ext, "txt".as_bytes()) {
        Some("text/plain".to_owned())
    } else {
        None
    }
}

/// The outcome of looking an asset up in the UI-asset store.
#[derive(Debug)]
pub enum AssetLookupOutcome {
    /// The asset exists; its bytes and, where one could be inferred, its
    /// MIME type.
    Found(Vec<u8>, Option<String>),
    /// No such asset is stored.
    NotFound,
    /// The lookup itself failed; the bytes describe the I/O failure.
    LookupFailed(Vec<u8>),
}

/// The response for an asset request, given the outcome of the store lookup:
/// accepted with the asset bytes (and `<mime>;charset=utf-8` where a MIME
/// type was inferred, a bare charset otherwise) when the asset exists,
/// not-found with an empty body when it does not, and a server error carrying
/// the failure detail when the lookup itself failed.
pub fn asset_response(outcome: AssetLookupOutcome) -> (r: HttpResponse)
    ensures
        outcome matches AssetLookupOutcome::Found(bytes, mime) ==> {
            &&& r.status == STATUS_ACCEPTED
            &&& r.body@ == bytes@
            &&& (mime matches Some(m) ==> (r.content_type matches Some(c) && c@ == m@
                + ";charset=utf-8"@))
            &&& (mime is None ==> (r.content_type matches Some(c) && c@ == "charset=utf-8"@))
        },
        outcome is NotFound ==> r.status == STATUS_NOT_FOUND && r.body@.len() == 0
            && r.content_type is None,
        outcome matches AssetLookupOutcome::LookupFailed(detail) ==> r.status
            == STATUS_INTERNAL_SERVER_ERROR && r.body@ == detail@ && r.content_type is None,
{
    match outcome {
        AssetLookupOutcome::Found(bytes, mime) => {
            let content_type = match mime {
                Some(m) => {
                    let c = m.concat(";charset=utf-8");
                    c
                },
                None => "charset=utf-8".to_owned(),
            };
            HttpResponse { status: STATUS_ACCEPTED, content_type: Some(content_type), body: bytes }
        },
        AssetLookupOutcome::NotFound => HttpResponse {
            status: STATUS_NOT_FOUND,
            content_type: None,
            body: Vec::new(),
        },
        AssetLookupOutcome::LookupFailed(detail) => HttpResponse {
            status: STATUS_INTERNAL_SERVER_ERROR,
            content_type: None,
            body: detail,
        },
    }
}

/// What the request handler must do for a URI: respond at once, or fetch the
/// named asset from the store and answer with [`asset_response`].
#[derive(Debug)]
pub enum RoutePlan {
    /// The response is already decided.
    Respond(HttpResponse),
    /// Look the asset up in the UI-asset store.
    FetchAsset {
        /// The application id to look under.
        app_id: Vec<u8>,
        /// The relative asset path to look up.
        asset_path: Vec<u8>,
    },
}

/// Routes one resource request.
///
/// The liveness probe is answered with an accepted, nonempty response
/// whatever `backend_ready` is; a malformed URI gets the bad-request
/// response; any asset request that arrives before the backend is
/// initialized gets the server-error response; and an asset request on a
/// ready backend is handed on to the store lookup.
pub fn route_request(uri: &Vec<u8>, backend_ready: bool) -> (r: RoutePlan)
    ensures
        parse_request_spec(uri@) is Ping ==> (r matches RoutePlan::Respond(resp)
            && resp.status == STATUS_ACCEPTED && resp.body@.len() > 0),
        parse_request_spec(uri@) is Malformed ==> (r matches RoutePlan::Respond(resp)
            && resp.status == STATUS_BAD_REQUEST),
        parse_request_spec(uri@) is Asset && !backend_ready ==> (r matches RoutePlan::Respond(resp)
            && resp.status == STATUS_INTERNAL_SERVER_ERROR),
        backend_ready ==> (parse_request_spec(uri@) matches ParsedRequest::Asset {
            app_id: a,
            asset_path: p,
        } ==> (r matches RoutePlan::FetchAsset { app_id, asset_path } && app_id@ == a
            && asset_path@ == p)),
{
    match parse_happ_request(uri) {
        Ok(HappRequest::Ping) => RoutePlan::Respond(ping_response()),
        Err(_) => RoutePlan::Respond(malformed_response()),
        Ok(HappRequest::Asset { app_id, asset_path }) => {
            if !backend_ready {
                RoutePlan::Respond(uninitialized_response())
            } else {
                RoutePlan::FetchAsset { app_id, asset_path }
            }
        },
    }
}

} // verus!
