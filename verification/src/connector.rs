//! Decisions behind the secure connector's configuration.
//!
//! The secure transport performs a TLS handshake offering `h2` then
//! `http/1.1` over ALPN, against a root trust store merged from the
//! OS-native store (best effort), a bundled well-known root set, and — when
//! mutual TLS is enabled — the custom CA file from the certificate
//! directory. Assembling the outside TLS machinery happens outside the
//! library; this module fixes the ALPN order and decides what the custom CA
//! file contributes.

use vstd::prelude::*;

use crate::certs::{pem_certs, pem_certs_of};
use crate::errors::Error;

verus! {

/// The `h2` protocol identifier, byte for byte.
pub open spec fn alpn_h2() -> Seq<u8> {
    seq![104u8, 50u8]
}

/// The `http/1.1` protocol identifier, byte for byte.
pub open spec fn alpn_http11() -> Seq<u8> {
    seq![104u8, 116u8, 116u8, 112u8, 47u8, 49u8, 46u8, 49u8]
}

/// The ALPN protocols the handshake offers: `h2`, then `http/1.1`.
pub fn alpn_protocols() -> (r: Vec<Vec<u8>>)
    ensures
        r.deep_view() == seq![alpn_h2(), alpn_http11()],
{
    let mut h2: Vec<u8> = Vec::new();
    h2.push(104);
    h2.push(50);
    proof {
        assert(h2@ =~= alpn_h2());
    }
    let mut http11: Vec<u8> = Vec::new();
    http11.push(104);
    http11.push(116);
    http11.push(116);
    http11.push(112);
    http11.push(47);
    http11.push(49);
    http11.push(46);
    http11.push(49);
    proof {
        assert(http11@ =~= alpn_http11());
    }
    let mut r: Vec<Vec<u8>> = Vec::new();
    r.push(h2);
    r.push(http11);
    proof {
        assert(r.deep_view() =~~= seq![alpn_h2(), alpn_http11()]);
    }
    r
}

/// The certificates the custom CA file adds to the trust store. `None`
/// stands for a file that could not be read; a file whose PEM content does
/// not scan is an error naming the path.
pub fn parse_ca_file(path: &str, data: &Option<Vec<u8>>) -> (r: Result<Vec<Vec<u8>>, Error>)
    ensures
        (data is None ==> (r matches Err(e) && e matches Error::Certificate { detail } && detail@
            == "cannot open "@ + path@)),
        (data matches Some(d) ==> (match pem_certs_of(d@) {
            Some(cs) => r matches Ok(v) && v.deep_view() == cs,
            None => r matches Err(e) && e matches Error::Certificate { detail } && detail@
                == "error reading "@ + path@,
        })),
{
    let bytes = match data {
        Some(d) => d,
        None => {
            let mut detail = String::from_str("cannot open ");
            detail.append(path);
            return Err(Error::Certificate { detail });
        },
    };
    match pem_certs(bytes.as_slice()) {
        Some(cs) => Ok(cs),
        None => {
            let mut detail = String::from_str("error reading ");
            detail.append(path);
            Err(Error::Certificate { detail })
        },
    }
}

} // verus!
