//! Core of a reverse-tunnel service-mesh ingress: the control-channel
//! vocabulary, the registry of agent connections, host routing with health
//! filtering, request correlation, the WebSocket tunnel state machines and
//! the identity handshake, all stated and proved with Verus.
//!
//! The library decides; its caller performs the I/O. Functions take the
//! current time as milliseconds (or seconds) since the Unix epoch, and
//! hand back what must be sent, completed or written.
use vstd::prelude::*;

pub mod agent;
pub mod auth;
pub mod codec;
pub mod config;
pub mod dispatcher;
pub mod edge;
pub mod error;
pub mod headers;
pub mod registry;
pub mod router;
pub mod routing;
pub mod signer;
pub mod text;
pub mod types;
pub mod ws_tunnel;

verus! {

} // verus!
