//! Embedded local upload server: lifecycle, port binding, token
//! authentication, network discovery, and upload-handler logic, with the
//! behaviour of each operation stated and proved.

use vstd::prelude::*;

pub mod binder;
pub mod handlers;
mod host;
pub mod models;
pub mod network;
pub mod phone_server;
pub mod router;
pub mod text;
pub mod token;

verus! {

/// The port the server tries first.
pub const DEFAULT_SERVER_PORT: u16 = 8787;

/// Time-to-live for upload tokens, in milliseconds (15 minutes).
pub const PHONE_TOKEN_TTL_MS: i64 = 15 * 60 * 1000;

/// Default time-to-live for an upload session, in milliseconds (10 minutes).
pub const PHONE_UPLOAD_TTL_MS: i64 = 10 * 60 * 1000;

} // verus!
