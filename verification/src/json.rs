//! The trusted boundary to `serde_json`.
//!
//! A reply's meaning is a function of its text alone, so each projection
//! that the client reads out of a reply is given a name: an uninterpreted
//! spec function of the body's characters. The trusted wrappers promise
//! only that they return that named projection; every judgment — the
//! envelope invariant, fail-closed discovery, version parsing, the share
//! list — is made by verified code over the projected plain values, and
//! the public interpreters tie their results to the names exactly.

use vstd::prelude::*;

verus! {

/// What the error payload of a reply holds: nothing, an object without an
/// integer code, or its integer code.
pub enum RawError {
    Absent,
    NoCode,
    Code(i64),
}

/// The envelope fields of a reply body, projected without judgment: not
/// JSON at all, JSON without a boolean `success` field, or the flag
/// together with whether a `data` payload is present and what the `error`
/// payload holds.
pub enum RawEnvelope {
    NotJson,
    NoSuccess,
    Envelope { success: bool, has_data: bool, error: RawError },
}

/// One namespace's entry of the discovery payload, projected without
/// judgment: absent, or its three fields, each `None` when missing or of
/// the wrong type.
pub enum RawEntry {
    Missing,
    Fields { path: Option<String>, min: Option<u64>, max: Option<u64> },
}

/// One element of the share-listing payload, each field `None` when
/// missing or not a string.
pub struct RawShare {
    pub name: Option<String>,
    pub path: Option<String>,
}

/// The envelope fields of a reply body. A function of the text alone.
pub uninterp spec fn spec_envelope_of(s: Seq<char>) -> RawEnvelope;

/// The fields of the data payload's entry under a given key. A function
/// of the text and the key alone.
pub uninterp spec fn spec_entry_of(s: Seq<char>, name: Seq<char>) -> RawEntry;

/// The elements of the data payload's `shares` array, in array order;
/// `None` when the reply has no such array. A function of the text alone.
pub uninterp spec fn spec_shares_of(s: Seq<char>) -> Option<Seq<RawShare>>;

/// Relies on serde_json (from_str and the Value accessors) to project the
/// reply's envelope fields: the boolean `success` flag, whether `data` is
/// present, and the integer `code` of the `error` payload.
#[verifier::external_body]
pub(crate) fn envelope_of(body: &str) -> (r: RawEnvelope)
    ensures
        r == spec_envelope_of(body@),
{
    let v: serde_json::Value = match serde_json::from_str(body) {
        Ok(v) => v,
        Err(_) => return RawEnvelope::NotJson,
    };
    let success = match v.get("success").and_then(|s| s.as_bool()) {
        Some(b) => b,
        None => return RawEnvelope::NoSuccess,
    };
    let error = match v.get("error").map(|e| e.get("code").and_then(|c| c.as_i64())) {
        None => RawError::Absent,
        Some(Some(c)) => RawError::Code(c),
        Some(None) => RawError::NoCode,
    };
    RawEnvelope::Envelope { success, has_data: v.get("data").is_some(), error }
}

/// Relies on serde_json to project the `path`, `minVersion` and
/// `maxVersion` fields of the named entry of the reply's data payload.
#[verifier::external_body]
pub(crate) fn entry_of(body: &str, name: &str) -> (r: RawEntry)
    ensures
        r == spec_entry_of(body@, name@),
{
    let v: serde_json::Value = match serde_json::from_str(body) {
        Ok(v) => v,
        Err(_) => return RawEntry::Missing,
    };
    let e = match v.get("data").and_then(|d| d.get(name)) {
        Some(e) => e,
        None => return RawEntry::Missing,
    };
    RawEntry::Fields {
        path: e.get("path").and_then(|p| p.as_str()).map(|s| s.to_owned()),
        min: e.get("minVersion").and_then(|m| m.as_u64()),
        max: e.get("maxVersion").and_then(|m| m.as_u64()),
    }
}

/// Relies on serde_json to project the `name` and `path` strings of each
/// element of the reply's `data.shares` array, in array order.
#[verifier::external_body]
pub(crate) fn shares_of(body: &str) -> (r: Option<Vec<RawShare>>)
    ensures
        r matches Some(v) ==> spec_shares_of(body@) == Some(v@),
        r is None ==> spec_shares_of(body@) is None,
{
    let v: serde_json::Value = serde_json::from_str(body).ok()?;
    let arr = v.get("data")?.get("shares")?.as_array()?;
    let mut out = Vec::new();
    for e in arr {
        out.push(RawShare {
            name: e.get("name").and_then(|n| n.as_str()).map(|s| s.to_owned()),
            path: e.get("path").and_then(|p| p.as_str()).map(|s| s.to_owned()),
        });
    }
    Some(out)
}

} // verus!
