//! The error taxonomy of the client.
//!
//! Every failure of the core surfaces as one `Error` value; nothing is
//! retried internally. Each variant carries enough plain data to render a
//! diagnostic message, and `message` states exactly what that rendering is.

use vstd::prelude::*;

verus! {

/// What went wrong while talking to the daemon.
#[derive(Debug, Clone, PartialEq, Eq)]
pub enum Error {
    /// A socket or handshake failure, or an endpoint scheme the client does
    /// not support.
    Connection { detail: String },
    /// Missing or ambiguous key material, or unreadable or unparsable PEM
    /// content; the detail names the offending path.
    Certificate { detail: String },
    /// A malformed request URI.
    RequestBuild { detail: String },
    /// A response whose status lies outside the success range.
    HttpStatus { status: u16 },
    /// A chunk read failed mid-transfer.
    Stream { detail: String },
    /// The response body did not decode as the requested type; carries the
    /// logical type name and the raw response text.
    Decode { requested_type: String, body_text: String },
}

/// The decimal digit character for `d`.
pub open spec fn decimal_digit(d: nat) -> char
    recommends
        d < 10,
{
    seq!['0', '1', '2', '3', '4', '5', '6', '7', '8', '9'][d as int]
}

/// The decimal rendering of `n`, most significant digit first.
pub open spec fn decimal_str(n: nat) -> Seq<char>
    decreases n,
{
    if n < 10 {
        seq![decimal_digit(n)]
    } else {
        decimal_str(n / 10).push(decimal_digit(n % 10))
    }
}

/// Renders `n` in decimal.
pub fn usize_decimal(n: usize) -> (s: String)
    ensures
        s@ == decimal_str(n as nat),
    decreases n,
{
    let digits = "0123456789";
    proof {
        reveal_strlit("0123456789");
        assert(digits@ =~= seq!['0', '1', '2', '3', '4', '5', '6', '7', '8', '9']);
    }
    let d = n % 10;
    let ds = digits.substring_char(d, d + 1);
    proof {
        assert(ds@ =~= seq![decimal_digit((n % 10) as nat)]);
    }
    if n < 10 {
        String::from_str(ds)
    } else {
        let mut s = usize_decimal(n / 10);
        s.append(ds);
        s
    }
}

impl Error {
    /// The diagnostic message of this error.
    pub open spec fn spec_message(self) -> Seq<char> {
        match self {
            Error::Connection { detail } => detail@,
            Error::Certificate { detail } => detail@,
            Error::RequestBuild { detail } => detail@,
            Error::HttpStatus { status } => "HTTP request failed: "@ + decimal_str(
                status as nat,
            ),
            Error::Stream { detail } => detail@,
            Error::Decode { requested_type, body_text } => "could not deserialize "@ + requested_type@
                + ": "@ + body_text@,
        }
    }

    /// Renders the diagnostic message.
    pub fn message(&self) -> (s: String)
        ensures
            s@ == self.spec_message(),
    {
        match self {
            Error::Connection { detail } => detail.clone(),
            Error::Certificate { detail } => detail.clone(),
            Error::RequestBuild { detail } => detail.clone(),
            Error::HttpStatus { status } => {
                let mut s = String::from_str("HTTP request failed: ");
                let digits = usize_decimal(*status as usize);
                s.append(digits.as_str());
                s
            },
            Error::Stream { detail } => detail.clone(),
            Error::Decode { requested_type, body_text } => {
                let mut s = String::from_str("could not deserialize ");
                s.append(requested_type.as_str());
                s.append(": ");
                s.append(body_text.as_str());
                s
            },
        }
    }
}

} // verus!
