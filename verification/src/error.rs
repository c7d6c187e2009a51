//! Error taxonomy of the runtime.

use vstd::prelude::*;

verus! {

/// Errors surfaced by the runtime's own operations.
#[derive(Debug, Clone, PartialEq, Eq)]
pub enum Error {
    /// Readiness polling exhausted its retry bound without reaching the
    /// backend's control socket.
    BackendUnreachable,
    /// An admin-socket call failed while creating or reusing a session.
    SessionError(String),
    /// A websocket connection to one of the control sockets failed.
    WebsocketConnectionError(String),
    /// The backend's admin API answered a request with an error.
    ConductorApiError(String),
    /// An I/O failure while persisting a bundle or UI assets.
    BundlePersistError(String),
    /// An I/O failure while reading a stored asset (distinct from the asset
    /// merely being absent).
    AssetLookupError(String),
    /// A resource request whose URI misses required segments.
    MalformedResourceRequest,
    /// The runtime was asked for state before the backend was launched.
    HolochainNotInitialized,
}

/// Errors of the update operations.
#[derive(Debug, Clone, PartialEq, Eq)]
pub enum UpdateAppError {
    /// The admin websocket could not be reached.
    WebsocketError,
    /// A conditional update referenced an application id with no recorded
    /// install hash.
    AppNotFound(String),
}

impl Error {
    /// A short human-readable description of the error.
    pub fn message(&self) -> (r: String)
        ensures
            r@.len() > 0,
    {
        let s: &str = match self {
            Error::BackendUnreachable => "Can't connect to holochain",
            Error::SessionError(_) => "Error while creating an app session",
            Error::WebsocketConnectionError(_) => "Error connecting the websocket",
            Error::ConductorApiError(_) => "Conductor API error",
            Error::BundlePersistError(_) => "Error persisting the app bundle",
            Error::AssetLookupError(_) => "Error reading a stored asset",
            Error::MalformedResourceRequest => "Malformed request: not enough items",
            Error::HolochainNotInitialized => "Called http UI before initializing holochain",
        };
        proof {
            reveal_strlit("Can't connect to holochain");
            reveal_strlit("Error while creating an app session");
            reveal_strlit("Error connecting the websocket");
            reveal_strlit("Conductor API error");
            reveal_strlit("Error persisting the app bundle");
            reveal_strlit("Error reading a stored asset");
            reveal_strlit("Malformed request: not enough items");
            reveal_strlit("Called http UI before initializing holochain");
        }
        s.to_owned()
    }
}

impl UpdateAppError {
    /// A short human-readable description of the error.
    pub fn message(&self) -> (r: String)
        ensures
            r@.len() > 0,
    {
        let s: &str = match self {
            UpdateAppError::WebsocketError => "Error connecting the admin websocket",
            UpdateAppError::AppNotFound(_) => "App not found",
        };
        proof {
            reveal_strlit("Error connecting the admin websocket");
            reveal_strlit("App not found");
        }
        s.to_owned()
    }
}

} // verus!
