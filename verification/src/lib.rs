//! A verified core for a Docker-style daemon client.
//!
//! The library models the client's decision logic: selecting a transport
//! from an endpoint address, building request targets, discovering client
//! TLS credentials from PEM material, checking response statuses, and
//! accumulating streamed response bodies. The surrounding async I/O lives
//! outside the library and hands plain values in and out.

use vstd::prelude::*;

pub mod errors;
pub mod transport;
pub mod url;
pub mod request;
pub mod decode;
pub mod certs;
pub mod connector;
pub mod process;
pub mod endpoints;

verus! {

/// The default daemon address used when no endpoint is configured.
pub const DEFAULT_DOCKER_HOST: &'static str = "unix:///var/run/docker.sock";

} // verus!
