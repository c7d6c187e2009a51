//! On-disk layout of the runtime's stores.
//!
//! The runtime keeps a key-material directory, a process-state directory, a
//! bundle-blob store, an icon store and a UI-asset directory tree under its
//! data directory. The functions here derive every path of that layout;
//! creating directories and reading or writing files is I/O and lives outside
//! this crate.

use vstd::prelude::*;
use vstd::string::StringExecFns;

verus! {

/// Joins a directory path and one entry name with `/`.
pub fn path_join(dir: &String, name: &str) -> (r: String)
    ensures
        r@ == dir@ + "/"@ + name@,
{
    dir.clone().concat("/").concat(name)
}

/// The layout of the runtime's on-disk state.
#[derive(Clone)]
pub struct FileSystem {
    /// Root of the runtime's mutable state: stores, keystore, process state.
    pub app_data_dir: String,
    /// Root of the runtime's configuration files.
    pub app_config_dir: String,
}

impl FileSystem {
    /// The layout rooted at the two directories, and the directories that
    /// must exist on disk before the backend starts: the bundle store, the
    /// icon store, the UI-asset store and the keystore. The caller creates
    /// them (and any missing parents) before launching.
    pub fn new(app_data_dir: String, app_config_dir: String) -> (r: (FileSystem, Vec<String>))
        ensures
            r.0.app_data_dir@ == app_data_dir@,
            r.0.app_config_dir@ == app_config_dir@,
            r.1@.len() == 4,
            r.1@[0]@ == r.0.webapp_store_path_spec(),
            r.1@[1]@ == r.0.icon_store_path_spec(),
            r.1@[2]@ == r.0.ui_store_path_spec(),
            r.1@[3]@ == r.0.keystore_dir_spec(),
    {
        let fs = FileSystem { app_data_dir, app_config_dir };
        let mut dirs: Vec<String> = Vec::new();
        dirs.push(fs.webapp_store().path);
        dirs.push(fs.icon_store().path);
        dirs.push(fs.ui_store().path);
        dirs.push(fs.keystore_dir());
        (fs, dirs)
    }

    /// The key-material directory.
    pub open spec fn keystore_dir_spec(&self) -> Seq<char> {
        self.app_data_dir@ + "/"@ + "keystore"@
    }

    /// The key-material directory.
    pub fn keystore_dir(&self) -> (r: String)
        ensures
            r@ == self.keystore_dir_spec(),
    {
        path_join(&self.app_data_dir, "keystore")
    }

    /// The keystore server's configuration file.
    pub fn keystore_config_path(&self) -> (r: String)
        ensures
            r@ == self.keystore_dir_spec() + "/"@ + "lair-keystore-config.yaml"@,
    {
        let dir = self.keystore_dir();
        path_join(&dir, "lair-keystore-config.yaml")
    }

    /// The keystore server's store file.
    pub fn keystore_store_path(&self) -> (r: String)
        ensures
            r@ == self.keystore_dir_spec() + "/"@ + "store_file"@,
    {
        let dir = self.keystore_dir();
        path_join(&dir, "store_file")
    }

    /// The backend process's state directory.
    pub fn conductor_dir(&self) -> (r: String)
        ensures
            r@ == self.app_data_dir@ + "/"@ + "conductor"@,
    {
        path_join(&self.app_data_dir, "conductor")
    }

    /// The bundle-blob store's directory.
    pub open spec fn webapp_store_path_spec(&self) -> Seq<char> {
        self.app_data_dir@ + "/"@ + "webhapps"@
    }

    /// The store of persisted application bundles.
    pub fn webapp_store(&self) -> (r: WebAppStore)
        ensures
            r.path@ == self.webapp_store_path_spec(),
    {
        WebAppStore { path: path_join(&self.app_data_dir, "webhapps") }
    }

    /// The icon store's directory.
    pub open spec fn icon_store_path_spec(&self) -> Seq<char> {
        self.app_data_dir@ + "/"@ + "icons"@
    }

    /// The store of application icons.
    pub fn icon_store(&self) -> (r: IconStore)
        ensures
            r.path@ == self.icon_store_path_spec(),
    {
        IconStore { path: path_join(&self.app_data_dir, "icons") }
    }

    /// The UI-asset store's directory.
    pub open spec fn ui_store_path_spec(&self) -> Seq<char> {
        self.app_data_dir@ + "/"@ + "uis"@
    }

    /// The store of unpacked UI assets, one directory per application id.
    pub fn ui_store(&self) -> (r: UiStore)
        ensures
            r.path@ == self.ui_store_path_spec(),
    {
        UiStore { path: path_join(&self.app_data_dir, "uis") }
    }
}

/// The store of unpacked UI assets.
pub struct UiStore {
    /// The store's directory.
    pub path: String,
}

impl UiStore {
    /// The directory holding the unpacked UI of one application. The
    /// directory is fully replaced — deleted, then recreated — on each
    /// update, never patched in place.
    pub fn ui_path(&self, installed_app_id: &String) -> (r: String)
        ensures
            r@ == self.path@ + "/"@ + installed_app_id@,
    {
        path_join(&self.path, installed_app_id.as_str())
    }
}

/// The store of persisted application bundles, addressed by the bundle's
/// content hash (in its textual form).
pub struct WebAppStore {
    /// The store's directory.
    pub path: String,
}

impl WebAppStore {
    /// The directory of one persisted bundle.
    pub fn webhapp_path(&self, web_app_entry_hash: &String) -> (r: String)
        ensures
            r@ == self.path@ + "/"@ + web_app_entry_hash@,
    {
        path_join(&self.path, web_app_entry_hash.as_str())
    }

    /// The bundle file inside one persisted bundle's directory.
    pub fn webhapp_package_path(&self, web_app_entry_hash: &String) -> (r: String)
        ensures
            r@ == self.path@ + "/"@ + web_app_entry_hash@ + "/"@ + "package.webhapp"@,
    {
        let dir = self.webhapp_path(web_app_entry_hash);
        path_join(&dir, "package.webhapp")
    }
}

/// The store of application icons, addressed by the app entry's hash (in its
/// textual form).
pub struct IconStore {
    /// The store's directory.
    pub path: String,
}

impl IconStore {
    /// The file holding one application's icon.
    pub fn icon_path(&self, app_entry_hash: &String) -> (r: String)
        ensures
            r@ == self.path@ + "/"@ + app_entry_hash@,
    {
        path_join(&self.path, app_entry_hash.as_str())
    }
}

} // verus!
