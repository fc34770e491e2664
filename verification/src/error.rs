//! The client's error taxonomy.
//!
//! - `Transport`: the connection itself failed (no response was decoded).
//! - `Protocol`: a response arrived but violated the envelope format.
//! - `Domain`: the server answered `success == false`; carries the
//!   namespace, the vendor's numeric code and its decoded message.
//! - `Precondition`: a call's fixed protocol version lies outside the
//!   advertised bounds, a compatibility break that must abort, not retry.
//! - `LocalFileMissing` / `ShareNotFound`: a named resource is absent.

use vstd::prelude::*;

use crate::api::Namespace;
use crate::decode::decode;
use crate::decode::spec_decode;

verus! {

#[derive(Debug)]
pub enum ClientError {
    /// Connection or I/O failure; the detail is the transport's own text.
    Transport { detail: String },
    /// The response envelope was malformed or violated its invariant.
    Protocol { detail: String },
    /// The server reported failure; `message` is the decoded code.
    Domain { namespace: Namespace, code: i64, message: String },
    /// The call's fixed version is outside the descriptor's bounds.
    Precondition { namespace: Namespace, version: u8 },
    /// The local file to upload does not exist.
    LocalFileMissing,
    /// No discovered share carries the requested name.
    ShareNotFound,
}

/// What a correctly decoded domain error for (namespace, code) looks
/// like: that variant, that pair, and the message always decorated with
/// the decoded, namespace-scoped text.
pub open spec fn is_domain_error(e: ClientError, ns: Namespace, c: i64) -> bool {
    e matches ClientError::Domain { namespace, code, message } && namespace == ns && code == c
        && message@ == spec_decode(ns, c)
}

/// Builds the domain error for a failed envelope: the numeric code is
/// always decorated with its decoded, namespace-scoped message.
pub fn domain_error(ns: Namespace, code: i64) -> (r: ClientError)
    ensures
        r matches ClientError::Domain { namespace, code: c, message } && namespace == ns && c
            == code && message@ == spec_decode(ns, code),
{
    ClientError::Domain { namespace: ns, code, message: decode(ns, code) }
}

/// Builds a protocol error from a fixed description.
pub fn protocol_error(detail: &str) -> (r: ClientError)
    ensures
        r matches ClientError::Protocol { detail: d } && d@ == detail@,
{
    ClientError::Protocol { detail: detail.to_owned() }
}

} // verus!
