//! An edge request router: authenticates inbound API calls, classifies them
//! by target region and protocol, deterministically shards them across a pool
//! of region-pinned execution targets, and translates legacy SOAP-style calls
//! into a byte-exact SOAP envelope before forwarding. Upstream responses are
//! reduced to a minimized public shape that never leaks an error body.

pub mod auth;
pub mod classify;
pub mod http;
pub mod pipeline;
pub mod reduce;
pub mod route;
pub mod soap;
pub mod trace;
pub mod wire;
