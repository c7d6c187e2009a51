//! Configuration handed to the backend process at launch.
//!
//! The backend takes its state directory, its keystore location, the admin
//! port, the network bootstrap and signal endpoints, and an optional gossip
//! arc clamping override. The host passes these plain values on to the
//! backend's own configuration object.

use vstd::prelude::*;

use crate::filesystem::FileSystem;

verus! {

/// What the host supplies to launch the backend.
pub struct HolochainPluginConfig {
    /// URL of the network bootstrap service.
    pub bootstrap_url: String,
    /// URL of the WebRTC signal server.
    pub signal_url: String,
    /// Directory that holds all of the backend's on-disk state.
    pub holochain_dir: String,
}

/// The backend process's configuration, as plain values.
pub struct ConductorSettings {
    /// The backend's state directory.
    pub data_root_path: String,
    /// The keystore's directory; the backend runs its keystore in-process
    /// rooted here.
    pub keystore_dir: String,
    /// Port of the admin interface, open to any origin.
    pub admin_port: u16,
    /// URL of the network bootstrap service.
    pub bootstrap_url: String,
    /// URL of the WebRTC signal server; the backend adds one WebRTC
    /// transport pointed at it.
    pub signal_url: String,
    /// Gossip arc clamping override, where the platform asks for one.
    pub gossip_arc_clamping: Option<String>,
}

/// The gossip arc clamping override for the platform: mobile platforms clamp
/// the gossip arc to empty, others leave the backend's default.
pub fn override_gossip_arc_clamping(mobile: bool) -> (r: Option<String>)
    ensures
        mobile ==> (r matches Some(c) && c@ == "empty"@),
        !mobile ==> r is None,
{
    if mobile {
        Some("empty".to_owned())
    } else {
        None
    }
}

/// Builds the backend's configuration: state under the filesystem's process
/// directory, the keystore rooted at the given directory, the admin
/// interface on the given port, and the given network endpoints.
pub fn conductor_config(
    fs: &FileSystem,
    admin_port: u16,
    lair_root: String,
    bootstrap_url: String,
    signal_url: String,
    gossip_arc_clamping: Option<String>,
) -> (r: ConductorSettings)
    ensures
        r.data_root_path@ == fs.app_data_dir@ + "/"@ + "conductor"@,
        r.keystore_dir@ == lair_root@,
        r.admin_port == admin_port,
        r.bootstrap_url@ == bootstrap_url@,
        r.signal_url@ == signal_url@,
        r.gossip_arc_clamping == gossip_arc_clamping,
{
    ConductorSettings {
        data_root_path: fs.conductor_dir(),
        keystore_dir: lair_root,
        admin_port,
        bootstrap_url,
        signal_url,
        gossip_arc_clamping,
    }
}

} // verus!
