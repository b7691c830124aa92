//! Transport selection.
//!
//! A client talks to the daemon either over a Unix domain socket or over
//! TLS-on-TCP. Which one is chosen is decided once, from the configured
//! endpoint address: `unix://<path>` selects the local socket at `<path>`,
//! `tcp://<host:port>` is rewritten to `https://<host:port>` for the secure
//! transport, and any other scheme is unsupported.

use vstd::prelude::*;

use crate::errors::Error;

verus! {

/// Whether `p` is a prefix of `s`.
pub open spec fn has_prefix(s: Seq<char>, p: Seq<char>) -> bool {
    p.len() <= s.len() && s.subrange(0, p.len() as int) == p
}

/// Whether `s` and `p` hold the same characters.
pub fn str_eq(s: &str, p: &str) -> (r: bool)
    ensures
        r == (s@ == p@),
{
    let sl = s.unicode_len();
    let pl = p.unicode_len();
    if sl != pl {
        proof {
            assert(s@ != p@);
        }
        return false;
    }
    let r = str_has_prefix(s, p);
    proof {
        assert(s@.subrange(0, pl as int) =~= s@);
    }
    r
}

/// Whether the string `s` starts with `p`.
pub fn str_has_prefix(s: &str, p: &str) -> (r: bool)
    ensures
        r == has_prefix(s@, p@),
{
    let sl = s.unicode_len();
    let pl = p.unicode_len();
    if pl > sl {
        return false;
    }
    let mut i: usize = 0;
    while i < pl
        invariant
            i <= pl,
            pl <= sl,
            pl == p@.len(),
            sl == s@.len(),
            forall|j: int| 0 <= j < i ==> s@[j] == p@[j],
        decreases pl - i,
    {
        if s.get_char(i) != p.get_char(i) {
            proof {
                assert(s@.subrange(0, pl as int)[i as int] == s@[i as int]);
            }
            return false;
        }
        i += 1;
    }
    proof {
        assert(s@.subrange(0, pl as int) =~= p@);
    }
    true
}

/// The socket path named by a local endpoint address: the remainder after a
/// `unix://` prefix, or the address itself where the prefix is absent.
pub open spec fn local_socket_path_of(addr: Seq<char>) -> Seq<char> {
    if has_prefix(addr, "unix://"@) {
        addr.skip("unix://"@.len() as int)
    } else {
        addr
    }
}

/// The HTTPS base URL for a TCP endpoint address: `tcp://` rewritten to
/// `https://`, or the address itself where the prefix is absent.
pub open spec fn https_base_of(addr: Seq<char>) -> Seq<char> {
    if has_prefix(addr, "tcp://"@) {
        "https://"@ + addr.skip("tcp://"@.len() as int)
    } else {
        addr
    }
}

/// The transport a client uses, chosen once at construction.
#[derive(Debug, Clone)]
pub enum TransportConfig {
    /// Mutually authenticated TLS over TCP against `base`, an absolute
    /// `https://` URL.
    SecureTcp { base: String },
    /// A plain stream over the Unix domain socket at `path`.
    LocalSocket { path: String },
}

impl TransportConfig {
    /// The local-socket transport for `addr`, stripping a `unix://` prefix.
    pub fn unix(addr: &str) -> (r: TransportConfig)
        ensures
            (r matches TransportConfig::LocalSocket { path } && path@ == local_socket_path_of(
                addr@,
            )),
    {
        let pre = "unix://";
        proof {
            reveal_strlit("unix://");
        }
        if str_has_prefix(addr, pre) {
            let rest = addr.substring_char(7, addr.unicode_len());
            TransportConfig::LocalSocket { path: String::from_str(rest) }
        } else {
            TransportConfig::LocalSocket { path: String::from_str(addr) }
        }
    }

    /// The secure transport for `addr`, rewriting a `tcp://` prefix to
    /// `https://`.
    pub fn secure_tcp(addr: &str) -> (r: TransportConfig)
        ensures
            (r matches TransportConfig::SecureTcp { base } && base@ == https_base_of(addr@)),
    {
        let pre = "tcp://";
        proof {
            reveal_strlit("tcp://");
        }
        if str_has_prefix(addr, pre) {
            let rest = addr.substring_char(6, addr.unicode_len());
            let base = String::from_str("https://").concat(rest);
            TransportConfig::SecureTcp { base }
        } else {
            TransportConfig::SecureTcp { base: String::from_str(addr) }
        }
    }

    /// Selects the transport for a configured endpoint address: `unix://`
    /// yields the local socket at the remainder, `tcp://` yields the secure
    /// transport with the base rewritten to `https://`, and any other scheme
    /// is rejected.
    pub fn from_host(host: &str) -> (r: Result<TransportConfig, Error>)
        ensures
            has_prefix(host@, "unix://"@) ==> (r matches Ok(t) && t matches
                TransportConfig::LocalSocket { path } && path@ == host@.skip(7)),
            !has_prefix(host@, "unix://"@) && has_prefix(host@, "tcp://"@) ==> (r matches Ok(t)
                && t matches TransportConfig::SecureTcp { base } && base@ == "https://"@
                + host@.skip(6)),
            !has_prefix(host@, "unix://"@) && !has_prefix(host@, "tcp://"@) ==> (r matches Err(e)
                && e matches Error::Connection { detail } && detail@ ==
                "unsupported scheme in Docker host "@ + host@),
    {
        proof {
            reveal_strlit("unix://");
            reveal_strlit("tcp://");
        }
        if str_has_prefix(host, "unix://") {
            Ok(TransportConfig::unix(host))
        } else if str_has_prefix(host, "tcp://") {
            Ok(TransportConfig::secure_tcp(host))
        } else {
            let mut detail = String::from_str("unsupported scheme in Docker host ");
            detail.append(host);
            Err(Error::Connection { detail })
        }
    }
}

} // verus!
