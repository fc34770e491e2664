//! The uniform response envelope every server reply is decoded into, its
//! invariant, and the interpretation of each call's reply body.
//!
//! The envelope invariant: `success == true` exactly when a data payload is
//! present and no error is, and `success == false` exactly when an error is
//! present and no data is. A reply violating it is a protocol error, not a
//! domain error. Each interpreter's contract ties its result, success and
//! failure alike, to the named projections of the reply text.

use vstd::prelude::*;

use crate::api::ApiDescriptor;
use crate::api::Directory;
use crate::api::Namespace;
use crate::api::api_name;
use crate::api::spec_api_name;
use crate::decode::spec_decode;
use crate::error::ClientError;
use crate::error::domain_error;
use crate::error::is_domain_error;
use crate::error::protocol_error;
use crate::json::RawEntry;
use crate::json::RawEnvelope;
use crate::json::RawError;
use crate::json::RawShare;
use crate::json::entry_of;
use crate::json::envelope_of;
use crate::json::shares_of;
use crate::json::spec_entry_of;
use crate::json::spec_envelope_of;
use crate::json::spec_shares_of;
use crate::share::SharedFolder;

verus! {

/// The envelope invariant over the projected fields: success exactly when
/// data is present, exactly when no error payload is, and a failure
/// envelope carries an integer code.
pub open spec fn envelope_wf(raw: RawEnvelope) -> bool {
    match raw {
        RawEnvelope::Envelope { success, has_data, error } => (success <==> has_data) && (success
            <==> error is Absent) && (!success ==> error is Code),
        _ => false,
    }
}

/// A reply that reports success and satisfies the envelope invariant.
pub open spec fn envelope_ok(raw: RawEnvelope) -> bool {
    match raw {
        RawEnvelope::Envelope { success: true, has_data: true, error: RawError::Absent } => true,
        _ => false,
    }
}

/// The code of a reply that reports failure and satisfies the envelope
/// invariant; `None` for every other shape.
pub open spec fn envelope_failure_code(raw: RawEnvelope) -> Option<i64> {
    match raw {
        RawEnvelope::Envelope { success: false, has_data: false, error: RawError::Code(c) } => Some(
            c,
        ),
        _ => None,
    }
}

/// What may come out of interpreting a reply under namespace `ns`: either a
/// protocol error, or a domain error under that namespace whose message is
/// the decoded code.
pub open spec fn reply_error_ok(e: ClientError, ns: Namespace) -> bool {
    ||| e is Protocol
    ||| (e matches ClientError::Domain { namespace, code, message } && namespace == ns && message@
        == spec_decode(ns, code))
}

/// Judges a projected envelope under the namespace the call was made
/// under: unit on a well-formed success, the decoded domain error on a
/// well-formed failure, and a protocol error on anything that violates
/// the envelope invariant or its shape.
pub fn classify_envelope(raw: RawEnvelope, ns: Namespace) -> (r: Result<(), ClientError>)
    ensures
        r is Ok <==> envelope_ok(raw),
        envelope_failure_code(raw) matches Some(c) ==> (r matches Err(e) && is_domain_error(
            e,
            ns,
            c,
        )),
        !envelope_ok(raw) && envelope_failure_code(raw) is None ==> (r matches Err(e) && e
            is Protocol),
        r is Ok || (r matches Err(e) && e is Domain) ==> envelope_wf(raw),
{
    match raw {
        RawEnvelope::NotJson => Err(protocol_error("reply body is not valid JSON")),
        RawEnvelope::NoSuccess => Err(protocol_error("envelope has no boolean success field")),
        RawEnvelope::Envelope { success, has_data, error } => {
            if success {
                match error {
                    RawError::Absent => {
                        if has_data {
                            Ok(())
                        } else {
                            Err(protocol_error("envelope invariant violated on success"))
                        }
                    },
                    _ => Err(protocol_error("envelope invariant violated on success")),
                }
            } else {
                match error {
                    RawError::Code(c) => {
                        if has_data {
                            Err(protocol_error("envelope invariant violated on failure"))
                        } else {
                            Err(domain_error(ns, c))
                        }
                    },
                    RawError::NoCode => Err(protocol_error("error payload has no integer code")),
                    RawError::Absent => Err(
                        protocol_error("envelope invariant violated on failure"),
                    ),
                }
            }
        },
    }
}

/// Interprets the reply to a login or logout call, both made under the
/// Auth namespace. The data payload carries nothing this client needs, so
/// success is unit, owed exactly on a well-formed success envelope.
pub fn interpret_auth_response(body: &str) -> (r: Result<(), ClientError>)
    ensures
        r is Ok <==> envelope_ok(spec_envelope_of(body@)),
        envelope_failure_code(spec_envelope_of(body@)) matches Some(c) ==> (r matches Err(e)
            && is_domain_error(e, Namespace::Auth, c)),
        r matches Err(e) ==> reply_error_ok(e, Namespace::Auth),
{
    classify_envelope(envelope_of(body), Namespace::Auth)
}

/// Interprets the reply to an upload call.
pub fn interpret_upload_response(body: &str) -> (r: Result<(), ClientError>)
    ensures
        r is Ok <==> envelope_ok(spec_envelope_of(body@)),
        envelope_failure_code(spec_envelope_of(body@)) matches Some(c) ==> (r matches Err(e)
            && is_domain_error(e, Namespace::FileStationUpload, c)),
        r matches Err(e) ==> reply_error_ok(e, Namespace::FileStationUpload),
{
    classify_envelope(envelope_of(body), Namespace::FileStationUpload)
}

/// The descriptor a discovery entry denotes: present exactly when the
/// entry exists with a string path and version bounds that fit in a byte.
pub open spec fn entry_descriptor(e: RawEntry) -> Option<ApiDescriptor> {
    match e {
        RawEntry::Fields { path: Some(p), min: Some(m), max: Some(x) } => if m <= 255 && x
            <= 255 {
            Some(ApiDescriptor { min_version: m as u8, max_version: x as u8, path: p })
        } else {
            None
        },
        _ => None,
    }
}

/// Turns one projected discovery entry into its descriptor: success
/// exactly when the entry is complete and its version bounds parse;
/// anything else fails the whole discovery, closed.
fn descriptor_from_entry(e: RawEntry) -> (r: Result<ApiDescriptor, ClientError>)
    ensures
        r is Ok <==> entry_descriptor(e) is Some,
        r matches Ok(d) ==> Some(d) == entry_descriptor(e),
        r matches Err(err) ==> err is Protocol,
{
    match e {
        RawEntry::Missing => Err(
            protocol_error("discovery payload is missing a required namespace"),
        ),
        RawEntry::Fields { path, min, max } => {
            let p = match path {
                Some(p) => p,
                None => {
                    return Err(protocol_error("discovery entry has no string path"));
                },
            };
            let m = match min {
                Some(m) => m,
                None => {
                    return Err(
                        protocol_error("discovery entry version bound is not an unsigned integer"),
                    );
                },
            };
            let x = match max {
                Some(x) => x,
                None => {
                    return Err(
                        protocol_error("discovery entry version bound is not an unsigned integer"),
                    );
                },
            };
            if m <= 255 && x <= 255 {
                Ok(ApiDescriptor { min_version: m as u8, max_version: x as u8, path: p })
            } else {
                Err(protocol_error("discovery entry version bound is out of range"))
            }
        },
    }
}

/// The five projected entries of a discovery reply all denote
/// descriptors: the condition under which discovery succeeds.
pub open spec fn discovery_complete(s: Seq<char>) -> bool {
    &&& entry_descriptor(spec_entry_of(s, spec_api_name(Namespace::ApiInfo))) is Some
    &&& entry_descriptor(spec_entry_of(s, spec_api_name(Namespace::Auth))) is Some
    &&& entry_descriptor(spec_entry_of(s, spec_api_name(Namespace::FileStationInfo))) is Some
    &&& entry_descriptor(spec_entry_of(s, spec_api_name(Namespace::FileStationUpload))) is Some
    &&& entry_descriptor(spec_entry_of(s, spec_api_name(Namespace::FileStationList))) is Some
}

/// Interprets the reply to the capability discovery call: success exactly
/// on a well-formed success envelope whose payload carries a complete,
/// parseable entry for every required namespace — fail closed, no partial
/// directory — and the returned directory is exactly what those entries
/// denote.
pub fn interpret_discovery_response(body: &str) -> (r: Result<Directory, ClientError>)
    ensures
        r is Ok <==> (envelope_ok(spec_envelope_of(body@)) && discovery_complete(body@)),
        r matches Ok(dir) ==> (Some(dir.info) == entry_descriptor(
            spec_entry_of(body@, spec_api_name(Namespace::ApiInfo)),
        ) && Some(dir.auth) == entry_descriptor(
            spec_entry_of(body@, spec_api_name(Namespace::Auth)),
        ) && Some(dir.fs_info) == entry_descriptor(
            spec_entry_of(body@, spec_api_name(Namespace::FileStationInfo)),
        ) && Some(dir.upload) == entry_descriptor(
            spec_entry_of(body@, spec_api_name(Namespace::FileStationUpload)),
        ) && Some(dir.list) == entry_descriptor(
            spec_entry_of(body@, spec_api_name(Namespace::FileStationList)),
        )),
        envelope_failure_code(spec_envelope_of(body@)) matches Some(c) ==> (r matches Err(e)
            && is_domain_error(e, Namespace::ApiInfo, c)),
        r matches Err(e) ==> reply_error_ok(e, Namespace::ApiInfo),
{
    match classify_envelope(envelope_of(body), Namespace::ApiInfo) {
        Ok(_) => (),
        Err(e) => {
            return Err(e);
        },
    }
    let info = match descriptor_from_entry(entry_of(body, api_name(Namespace::ApiInfo))) {
        Ok(d) => d,
        Err(e) => {
            return Err(e);
        },
    };
    let auth = match descriptor_from_entry(entry_of(body, api_name(Namespace::Auth))) {
        Ok(d) => d,
        Err(e) => {
            return Err(e);
        },
    };
    let fs_info = match descriptor_from_entry(
        entry_of(body, api_name(Namespace::FileStationInfo)),
    ) {
        Ok(d) => d,
        Err(e) => {
            return Err(e);
        },
    };
    let upload = match descriptor_from_entry(
        entry_of(body, api_name(Namespace::FileStationUpload)),
    ) {
        Ok(d) => d,
        Err(e) => {
            return Err(e);
        },
    };
    let list = match descriptor_from_entry(entry_of(body, api_name(Namespace::FileStationList))) {
        Ok(d) => d,
        Err(e) => {
            return Err(e);
        },
    };
    Ok(Directory { info, auth, fs_info, upload, list })
}

/// A projected share entry that carries both of its strings.
pub open spec fn share_complete(s: RawShare) -> bool {
    s.name is Some && s.path is Some
}

/// The share a complete projected entry denotes.
pub open spec fn share_of(s: RawShare) -> SharedFolder {
    SharedFolder { name: s.name->Some_0, path: s.path->Some_0 }
}

/// Every projected share entry carries both of its strings.
pub open spec fn shares_all_complete(l: Seq<RawShare>) -> bool {
    forall|k: int| 0 <= k < l.len() ==> share_complete(#[trigger] l[k])
}

/// The returned list mirrors the projected array: every element, in
/// order, with its name and path.
pub open spec fn shares_mirror(v: Seq<SharedFolder>, l: Seq<RawShare>) -> bool {
    v.len() == l.len() && forall|k: int| 0 <= k < l.len() ==> v[k] == share_of(#[trigger] l[k])
}

/// Interprets the reply to the share-listing call: success exactly on a
/// well-formed success envelope whose payload carries a shares array of
/// complete entries, and the returned list mirrors that array — every
/// element, in order, with its name and path.
pub fn interpret_list_response(body: &str) -> (r: Result<Vec<SharedFolder>, ClientError>)
    ensures
        r is Ok <==> (envelope_ok(spec_envelope_of(body@)) && (spec_shares_of(body@) matches Some(
            l,
        ) && shares_all_complete(l))),
        r matches Ok(v) ==> (spec_shares_of(body@) matches Some(l) && shares_mirror(v@, l)),
        envelope_failure_code(spec_envelope_of(body@)) matches Some(c) ==> (r matches Err(e)
            && is_domain_error(e, Namespace::FileStationList, c)),
        r matches Err(e) ==> reply_error_ok(e, Namespace::FileStationList),
{
    match classify_envelope(envelope_of(body), Namespace::FileStationList) {
        Ok(_) => (),
        Err(e) => {
            return Err(e);
        },
    }
    let raws = match shares_of(body) {
        Some(v) => v,
        None => {
            return Err(protocol_error("share listing has no shares array"));
        },
    };
    let mut out: Vec<SharedFolder> = Vec::new();
    let mut i: usize = 0;
    while i < raws.len()
        invariant
            i <= raws@.len(),
            out@.len() == i,
            envelope_ok(spec_envelope_of(body@)),
            spec_shares_of(body@) == Some(raws@),
            forall|k: int|
                0 <= k < i ==> share_complete(#[trigger] raws@[k]) && out@[k] == share_of(
                    raws@[k],
                ),
        decreases raws@.len() - i,
    {
        let name = match &raws[i].name {
            Some(n) => n.clone(),
            None => {
                proof {
                    assert(0 <= i < raws@.len() && !share_complete(raws@[i as int]));
                    assert(!shares_all_complete(raws@));
                }
                return Err(protocol_error("share entry has no string name"));
            },
        };
        let path = match &raws[i].path {
            Some(p) => p.clone(),
            None => {
                proof {
                    assert(0 <= i < raws@.len() && !share_complete(raws@[i as int]));
                    assert(!shares_all_complete(raws@));
                }
                return Err(protocol_error("share entry has no string path"));
            },
        };
        out.push(SharedFolder { name, path });
        i = i + 1;
    }
    proof {
        assert(shares_all_complete(raws@));
        assert(shares_mirror(out@, raws@));
    }
    Ok(out)
}

} // verus!
