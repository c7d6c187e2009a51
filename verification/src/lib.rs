//! Core logic of a runtime that embeds a peer-to-peer application backend
//! (a "conductor" process reached through two control sockets) inside a host
//! application.
//!
//! The modules here hold the decision logic of that runtime: session
//! credential caching, install/update lifecycle with content-hash based
//! idempotence, routing of `happ://` resource requests, readiness polling,
//! and the on-disk layout of the runtime's stores. All I/O (sockets, disk,
//! process control, windows) lives outside this crate and hands these
//! functions plain values.

pub mod archive;
pub mod bytesutil;
pub mod codec;
pub mod digest;
pub mod error;
pub mod filesystem;
pub mod identifier;
pub mod index;
pub mod lifecycle;
pub mod poll;
pub mod ports;
pub mod router;
pub mod runtime;
pub mod scopes;
pub mod session;
pub mod settings;
pub mod window;

pub use error::{Error, UpdateAppError};
