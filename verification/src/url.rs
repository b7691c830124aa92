//! Building request targets.
//!
//! A logical resource path becomes a transport-appropriate request target:
//! over the secure transport, the base URL and the path are concatenated and
//! must parse as a URI; over the local socket, the target carries the socket
//! path and the resource path separately so the HTTP layer can route it
//! without a real host or port.

use vstd::prelude::*;

use crate::errors::Error;
use crate::transport::TransportConfig;

verus! {

/// Whether a string parses as a URI.
pub uninterp spec fn uri_parses(s: Seq<char>) -> bool;

/// Relies on `hyper::Uri::try_from` (the `http` crate's URI parser): whether
/// a string parses as a URI depends on the string alone.
#[verifier::external_body]
fn uri_parse_ok(s: &str) -> (r: bool)
    ensures
        r == uri_parses(s@),
{
    hyper::Uri::try_from(s).is_ok()
}

/// A fully built request target, ready for the HTTP layer.
#[derive(Debug, Clone)]
pub enum RequestTarget {
    /// An absolute URL for the secure transport.
    Https { url: String },
    /// A socket path and a resource path for the local transport.
    Local { socket_path: String, resource_path: String },
}

/// Builds request targets for one transport.
#[derive(Debug, Clone)]
pub enum UrlBuilder {
    /// Concatenates an absolute base URL with each resource path.
    Https { base: String },
    /// Pairs the socket path with each resource path.
    Local { base: String },
}

impl UrlBuilder {
    /// The builder matching the chosen transport.
    pub fn for_transport(t: &TransportConfig) -> (r: UrlBuilder)
        ensures
            (t matches TransportConfig::SecureTcp { base } ==> (r matches UrlBuilder::Https {
                base: b,
            } && b@ == base@)),
            (t matches TransportConfig::LocalSocket { path } ==> (r matches UrlBuilder::Local {
                base: b,
            } && b@ == path@)),
    {
        match t {
            TransportConfig::SecureTcp { base } => UrlBuilder::Https { base: base.clone() },
            TransportConfig::LocalSocket { path } => UrlBuilder::Local { base: path.clone() },
        }
    }

    /// Builds the target for one resource path. On the secure transport the
    /// result is the base and the path concatenated, rejected when the
    /// concatenation does not parse as a URI; on the local transport it
    /// carries the socket path and the resource path unchanged.
    pub fn build_url(&self, path: &str) -> (r: Result<RequestTarget, Error>)
        ensures
            (self matches UrlBuilder::Https { base } ==> {
                let full = base@ + path@;
                if uri_parses(full) {
                    r matches Ok(t) && t matches RequestTarget::Https { url } && url@ == full
                } else {
                    r matches Err(e) && e matches Error::RequestBuild { detail } && detail@
                        == "cannot parse URL "@ + full
                }
            }),
            (self matches UrlBuilder::Local { base } ==> (r matches Ok(t) && t matches
                RequestTarget::Local { socket_path, resource_path } && socket_path@ == base@
                && resource_path@ == path@)),
    {
        match self {
            UrlBuilder::Https { base } => {
                let mut full = base.clone();
                full.append(path);
                if uri_parse_ok(full.as_str()) {
                    Ok(RequestTarget::Https { url: full })
                } else {
                    let mut detail = String::from_str("cannot parse URL ");
                    detail.append(full.as_str());
                    Err(Error::RequestBuild { detail })
                }
            },
            UrlBuilder::Local { base } => Ok(
                RequestTarget::Local {
                    socket_path: base.clone(),
                    resource_path: String::from_str(path),
                },
            ),
        }
    }
}

} // verus!
