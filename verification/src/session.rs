//! Per-application session credentials.
//!
//! Each application id gets at most one credential: the port of its
//! data-plane interface and an authentication token. The credential is
//! created on the first request for that id (two admin-socket calls: attach
//! an interface, issue a token) and cached for the lifetime of the backend
//! process. The cache's owner serializes requests — a mutex held around the
//! whole check-then-create sequence; under that serialization,
//! [`lemma_get_or_create_at_most_once`] proves that two
//! requests for the same id yield identical credentials and trigger at most
//! one creation.

use vstd::prelude::*;

verus! {

/// The credential that authorizes data-plane access for one application id.
#[derive(Debug)]
pub struct AppWebsocketAuth {
    /// Port of the data-plane interface attached for the application.
    pub app_websocket_port: u16,
    /// Authentication token issued for the application.
    pub token: Vec<u8>,
}

impl View for AppWebsocketAuth {
    type V = (u16, Seq<u8>);

    open spec fn view(&self) -> (u16, Seq<u8>) {
        (self.app_websocket_port, self.token@)
    }
}

impl Clone for AppWebsocketAuth {
    fn clone(&self) -> (r: Self)
        ensures
            r@ == self@,
    {
        let token = self.token.clone();
        proof {
            assert(token@ =~= self.token@);
        }
        AppWebsocketAuth { app_websocket_port: self.app_websocket_port, token }
    }
}

/// One cached credential.
pub struct SessionEntry {
    /// The application id the credential was created for.
    pub app_id: String,
    /// The credential.
    pub auth: AppWebsocketAuth,
}

/// First-match lookup of an application id among the cached entries.
pub open spec fn session_lookup_in(entries: Seq<SessionEntry>, id: Seq<char>) -> Option<
    AppWebsocketAuth,
>
    decreases entries.len(),
{
    if entries.len() == 0 {
        None
    } else if entries[0].app_id@ == id {
        Some(entries[0].auth)
    } else {
        session_lookup_in(entries.drop_first(), id)
    }
}

/// If no entry among the first `i` matches `id`, the lookup is decided by the
/// remaining entries.
proof fn lemma_session_lookup_prefix_miss(entries: Seq<SessionEntry>, id: Seq<char>, i: int)
    requires
        0 <= i <= entries.len(),
        forall|k: int| 0 <= k < i ==> entries[k].app_id@ != id,
    ensures
        session_lookup_in(entries, id) == session_lookup_in(entries.skip(i), id),
    decreases i,
{
    if i > 0 {
        lemma_session_lookup_prefix_miss(entries.drop_first(), id, i - 1);
        assert(entries.drop_first().skip(i - 1) =~= entries.skip(i));
    } else {
        assert(entries.skip(0) =~= entries);
    }
}

/// Appending an entry decides lookups that the existing entries leave open,
/// and changes no lookup they already decide.
proof fn lemma_session_lookup_push(entries: Seq<SessionEntry>, e: SessionEntry, id: Seq<char>)
    ensures
        session_lookup_in(entries.push(e), id) == if session_lookup_in(entries, id) is Some {
            session_lookup_in(entries, id)
        } else if e.app_id@ == id {
            Some(e.auth)
        } else {
            None::<AppWebsocketAuth>
        },
    decreases entries.len(),
{
    let pushed = entries.push(e);
    if entries.len() == 0 {
        assert(pushed[0] == e);
        assert(pushed.drop_first() =~= Seq::<SessionEntry>::empty());
        if e.app_id@ != id {
            assert(session_lookup_in(pushed, id) == session_lookup_in(pushed.drop_first(), id));
        }
    } else {
        assert(pushed[0] == entries[0]);
        if entries[0].app_id@ != id {
            assert(pushed.drop_first() =~= entries.drop_first().push(e));
            lemma_session_lookup_push(entries.drop_first(), e, id);
        }
    }
}

/// The cache of per-application session credentials.
pub struct SessionCache {
    /// The cached entries, at most one per application id.
    pub entries: Vec<SessionEntry>,
}

impl SessionCache {
    /// Application ids are unique across the entries.
    pub open spec fn wf(&self) -> bool {
        forall|i: int, j: int|
            0 <= i < j < self.entries@.len() ==> #[trigger] self.entries@[i].app_id@
                != #[trigger] self.entries@[j].app_id@
    }

    /// The credential cached for an application id, if any.
    pub open spec fn spec_lookup(&self, id: Seq<char>) -> Option<AppWebsocketAuth> {
        session_lookup_in(self.entries@, id)
    }

    /// An empty cache: no application has a session yet. The cache starts
    /// empty at backend launch, and a backend restart clears it back to this.
    pub fn new() -> (r: SessionCache)
        ensures
            r.wf(),
            forall|id: Seq<char>| r.spec_lookup(id) is None,
    {
        SessionCache { entries: Vec::new() }
    }

    /// Returns a copy of the credential cached for `app_id`, if one exists.
    /// This is the fast path of a session request: on `Some` the request is
    /// served from the cache and no admin-socket call is made.
    pub fn get_session(&self, app_id: &String) -> (r: Option<AppWebsocketAuth>)
        ensures
            r is Some <==> self.spec_lookup(app_id@) is Some,
            r matches Some(a) ==> Some(a@) == spec_auth_view(self.spec_lookup(app_id@)),
    {
        let n = self.entries.len();
        let mut i: usize = 0;
        while i < n
            invariant
                n == self.entries@.len(),
                i <= n,
                forall|k: int| 0 <= k < i ==> self.entries@[k].app_id@ != app_id@,
            decreases n - i,
        {
            if self.entries[i].app_id == *app_id {
                proof {
                    lemma_session_lookup_prefix_miss(self.entries@, app_id@, i as int);
                    assert(self.entries@.skip(i as int)[0] == self.entries@[i as int]);
                }
                return Some(self.entries[i].auth.clone());
            }
            i = i + 1;
        }
        proof {
            lemma_session_lookup_prefix_miss(self.entries@, app_id@, n as int);
            assert(self.entries@.skip(n as int) =~= Seq::<SessionEntry>::empty());
        }
        None
    }

    /// Caches a freshly created credential for `app_id` and returns a copy of
    /// it. This is the slow path of a session request, called only after the
    /// two admin-socket calls succeeded; on failure nothing is cached, so a
    /// later request retries from scratch.
    pub fn insert_session(&mut self, app_id: String, auth: AppWebsocketAuth) -> (r:
        AppWebsocketAuth)
        requires
            old(self).wf(),
            old(self).spec_lookup(app_id@) is None,
        ensures
            final(self).wf(),
            final(self).spec_lookup(app_id@) == Some(auth),
            forall|id2: Seq<char>|
                id2 != app_id@ ==> final(self).spec_lookup(id2) == old(self).spec_lookup(id2),
            r@ == auth@,
    {
        let ghost orig = self.entries@;
        let r = auth.clone();
        let ghost entry_ghost;
        let entry = SessionEntry { app_id, auth };
        proof {
            entry_ghost = entry;
        }
        self.entries.push(entry);
        proof {
            assert forall|id2: Seq<char>|
                session_lookup_in(self.entries@, id2) == if session_lookup_in(orig, id2) is Some {
                    session_lookup_in(orig, id2)
                } else if entry_ghost.app_id@ == id2 {
                    Some(entry_ghost.auth)
                } else {
                    None::<AppWebsocketAuth>
                } by {
                lemma_session_lookup_push(orig, entry_ghost, id2);
            }
            assert forall|i: int, j: int|
                0 <= i < j
                    < self.entries@.len() implies #[trigger] self.entries@[i].app_id@
                != #[trigger] self.entries@[j].app_id@ by {
                if j == self.entries@.len() - 1 {
                    lemma_session_lookup_prefix_miss(orig, orig[i].app_id@, i);
                    assert(orig.skip(i)[0] == orig[i]);
                    assert(session_lookup_in(orig, orig[i].app_id@) is Some);
                }
            }
        }
        r
    }
}

/// Which origins may open the application's data-plane interface.
#[derive(Debug)]
pub enum AllowedOrigins {
    /// Any origin: used in development builds so local tooling can connect.
    Any,
    /// Only the listed origins.
    Origins(Vec<String>),
}

/// The origin policy of a new data-plane interface: any origin in
/// development mode, narrowed to the application's own `happ://` origin in
/// production builds. The asymmetry is intentional: development tooling
/// connects from outside the application's origin.
pub fn session_allowed_origins(app_id: &String, dev_mode: bool) -> (r: AllowedOrigins)
    ensures
        dev_mode ==> r is Any,
        !dev_mode ==> (r matches AllowedOrigins::Origins(v) && v@.len() == 1 && v@[0]@ == "happ://"@
            + app_id@),
{
    if dev_mode {
        AllowedOrigins::Any
    } else {
        let mut origins: Vec<String> = Vec::new();
        origins.push(crate::window::happ_origin(app_id));
        AllowedOrigins::Origins(origins)
    }
}

/// What the admin socket is asked for when issuing an application's token.
pub struct IssueTokenSettings {
    /// The application the token authorizes.
    pub installed_app_id: String,
    /// Seconds until the token expires.
    pub expiry_seconds: u64,
    /// Whether the token may be used once only.
    pub single_use: bool,
}

/// The token request for one application: a very long expiry and multi-use
/// semantics, so the credential lives as long as the backend process.
pub fn token_issue_settings(app_id: String) -> (r: IssueTokenSettings)
    ensures
        r.installed_app_id@ == app_id@,
        r.expiry_seconds == 999999999u64,
        !r.single_use,
{
    IssueTokenSettings { installed_app_id: app_id, expiry_seconds: 999999999, single_use: false }
}

/// The view of an optional credential.
pub open spec fn spec_auth_view(a: Option<AppWebsocketAuth>) -> Option<(u16, Seq<u8>)> {
    match a {
        Some(auth) => Some(auth@),
        None => None,
    }
}

/// At most one session is created per application id. The cache's owner
/// serializes session requests; one serialized request for `id` behaves as
/// follows: on a cache hit it returns the cached credential and performs no
/// admin-socket call, on a miss it creates one credential `fresh` and caches
/// it. This lemma states that after any first request, a second request for
/// the same id hits the cache — so it creates nothing — and the credential it
/// returns is identical to what the first request returned.
pub proof fn lemma_get_or_create_at_most_once(
    cache0: SessionCache,
    cache1: SessionCache,
    id: Seq<char>,
    fresh: AppWebsocketAuth,
)
    requires
        cache0.wf(),
        // The first request left `cache1` behind: unchanged on a hit,
        // extended by exactly the `id -> fresh` entry on a miss.
        if cache0.spec_lookup(id) is Some {
            cache1 == cache0
        } else {
            &&& cache1.wf()
            &&& cache1.spec_lookup(id) == Some(fresh)
            &&& forall|id2: Seq<char>|
                id2 != id ==> cache1.spec_lookup(id2) == cache0.spec_lookup(id2)
        },
    ensures
        // The second request for `id` hits the cache: no creation.
        cache1.spec_lookup(id) is Some,
        // It returns the same credential the first request returned.
        cache1.spec_lookup(id) == if cache0.spec_lookup(id) is Some {
            cache0.spec_lookup(id)
        } else {
            Some(fresh)
        },
{
}

} // verus!
