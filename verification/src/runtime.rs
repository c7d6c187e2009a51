//! The runtime's shared state: the launched backend's ports, the on-disk
//! layout, the session-credential cache and the installed-app index.
//!
//! The backend process handle itself is owned by the host outside this
//! crate; everything the decision logic reads or writes lives here. The
//! methods mirror the runtime's operations: looking up or recording session
//! credentials (the admin-socket calls in between are the host's), deciding
//! conditional updates, and recording completed installs and updates.

use vstd::prelude::*;
use vstd::string::StringExecFns;

use crate::digest::content_hash_spec;
use crate::error::UpdateAppError;
use crate::filesystem::FileSystem;
use crate::index::InstalledAppsIndex;
use crate::lifecycle;
use crate::lifecycle::{AppEvent, UpdateDecision};
use crate::session::{AppWebsocketAuth, SessionCache};
use crate::window::{u64_decimal, u64_decimal_string};

verus! {

/// The connect address of a local control socket, as the runtime dials it.
pub fn local_connect_address(port: u16) -> (r: String)
    ensures
        r@ == "localhost:"@ + u64_decimal(port as u64),
{
    "localhost:".to_owned().concat(u64_decimal_string(port as u64).as_str())
}

/// The probe address used while polling a control socket for readiness.
pub fn local_probe_address(port: u16) -> (r: String)
    ensures
        r@ == "127.0.0.1:"@ + u64_decimal(port as u64),
{
    "127.0.0.1:".to_owned().concat(u64_decimal_string(port as u64).as_str())
}

/// The runtime's shared state.
pub struct HolochainRuntime {
    /// The on-disk layout of the runtime's stores.
    pub filesystem: FileSystem,
    /// The per-application session credentials.
    pub apps_websockets_auths: SessionCache,
    /// Port of the backend's admin interface.
    pub admin_port: u16,
    /// The persisted index of installed applications.
    pub installed_apps: InstalledAppsIndex,
}

impl HolochainRuntime {
    /// Both caches are well-formed: at most one entry per application id.
    pub open spec fn wf(&self) -> bool {
        self.apps_websockets_auths.wf() && self.installed_apps.wf()
    }

    /// The state right after launch: no sessions, and the given installed-app
    /// index (decoded from the index file, or empty on first run).
    pub fn new(filesystem: FileSystem, admin_port: u16, installed_apps: InstalledAppsIndex) -> (r:
        HolochainRuntime)
        requires
            installed_apps.wf(),
        ensures
            r.wf(),
            r.admin_port == admin_port,
            r.filesystem == filesystem,
            r.installed_apps == installed_apps,
            forall|id: Seq<char>| r.apps_websockets_auths.spec_lookup(id) is None,
    {
        HolochainRuntime {
            filesystem,
            apps_websockets_auths: SessionCache::new(),
            admin_port,
            installed_apps,
        }
    }

    /// The admin socket's connect address.
    pub fn admin_connect_address(&self) -> (r: String)
        ensures
            r@ == "localhost:"@ + u64_decimal(self.admin_port as u64),
    {
        local_connect_address(self.admin_port)
    }

    /// Returns the cached session credential for `app_id`, if one exists; on
    /// `None` the caller creates one over the admin socket and records it
    /// with [`Self::record_app_websocket_auth`]. The two calls must stay
    /// under one lock so that concurrent requests for the same id serialize.
    pub fn get_app_websocket_auth(&self, app_id: &String) -> (r: Option<AppWebsocketAuth>)
        ensures
            r is Some <==> self.apps_websockets_auths.spec_lookup(app_id@) is Some,
            r matches Some(a) ==> Some(a@) == crate::session::spec_auth_view(
                self.apps_websockets_auths.spec_lookup(app_id@),
            ),
    {
        self.apps_websockets_auths.get_session(app_id)
    }

    /// Caches a freshly created session credential for `app_id` and returns
    /// a copy of it.
    pub fn record_app_websocket_auth(&mut self, app_id: String, auth: AppWebsocketAuth) -> (r:
        AppWebsocketAuth)
        requires
            old(self).wf(),
            old(self).apps_websockets_auths.spec_lookup(app_id@) is None,
        ensures
            final(self).wf(),
            final(self).apps_websockets_auths.spec_lookup(app_id@) == Some(auth),
            forall|id2: Seq<char>|
                id2 != app_id@ ==> final(self).apps_websockets_auths.spec_lookup(id2) == old(
                    self,
                ).apps_websockets_auths.spec_lookup(id2),
            final(self).installed_apps == old(self).installed_apps,
            final(self).admin_port == old(self).admin_port,
            r@ == auth@,
    {
        self.apps_websockets_auths.insert_session(app_id, auth)
    }

    /// Decides whether `app_id` must be updated to `current_app_bundle`:
    /// `Err(AppNotFound)` — before any admin-socket work — when the
    /// application was never recorded as installed, `Ok(UpToDate)` when the
    /// recorded hash equals the bundle's, `Ok(NeedsUpdate)` otherwise.
    pub fn update_app_if_necessary(&self, app_id: &String, current_app_bundle: &Vec<u8>) -> (r:
        Result<UpdateDecision, UpdateAppError>)
        ensures
            self.installed_apps.spec_lookup(app_id@) is None <==> r is Err,
            r is Err ==> r == Err::<UpdateDecision, UpdateAppError>(
                UpdateAppError::AppNotFound(*app_id),
            ),
            r is Ok ==> r->Ok_0 == lifecycle::update_decision_spec(
                self.installed_apps,
                app_id@,
                content_hash_spec(current_app_bundle@),
            ) && r->Ok_0 != UpdateDecision::AppNotFound,
    {
        lifecycle::update_app_if_necessary(&self.installed_apps, app_id, current_app_bundle)
    }

    /// Records a completed installation of `bundle` under `app_id` and names
    /// the `app-installed` event to emit.
    pub fn complete_install(&mut self, app_id: String, bundle: &Vec<u8>) -> (ev: AppEvent)
        requires
            old(self).wf(),
        ensures
            final(self).wf(),
            final(self).installed_apps.spec_lookup(app_id@) == Some(content_hash_spec(bundle@)),
            forall|id2: Seq<char>|
                id2 != app_id@ ==> final(self).installed_apps.spec_lookup(id2) == old(
                    self,
                ).installed_apps.spec_lookup(id2),
            final(self).apps_websockets_auths == old(self).apps_websockets_auths,
            final(self).admin_port == old(self).admin_port,
            ev matches AppEvent::AppInstalled(a) && a@ == app_id@,
    {
        lifecycle::complete_install(&mut self.installed_apps, app_id, bundle)
    }

    /// Records a completed update of `app_id` to `bundle` and names the
    /// `app-updated` event to emit.
    pub fn complete_update(&mut self, app_id: String, bundle: &Vec<u8>) -> (ev: AppEvent)
        requires
            old(self).wf(),
        ensures
            final(self).wf(),
            final(self).installed_apps.spec_lookup(app_id@) == Some(content_hash_spec(bundle@)),
            forall|id2: Seq<char>|
                id2 != app_id@ ==> final(self).installed_apps.spec_lookup(id2) == old(
                    self,
                ).installed_apps.spec_lookup(id2),
            final(self).apps_websockets_auths == old(self).apps_websockets_auths,
            final(self).admin_port == old(self).admin_port,
            ev matches AppEvent::AppUpdated(a) && a@ == app_id@,
    {
        lifecycle::complete_update(&mut self.installed_apps, app_id, bundle)
    }
}

} // verus!
