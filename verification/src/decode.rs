//! Namespace-scoped decoding of the vendor's numeric error codes.
//!
//! The lookup is layered, most specific tier first:
//! 1. a namespace-specific table (Auth has one, so does the upload
//!    sub-namespace of the file station),
//! 2. the file-operation common table, shared by every file-station
//!    namespace,
//! 3. the protocol common table, the final fallback for every namespace,
//! 4. a generic "unknown code" string when no tier matches.

use vstd::prelude::*;

use crate::api::Namespace;

verus! {

/// Tier 3: the protocol common table (final fallback for every namespace).
pub open spec fn protocol_common_entry(code: i64) -> Option<Seq<char>> {
    if code == 100 {
        Some("Unknown error"@)
    } else if code == 101 {
        Some("No parameter of API, method or version"@)
    } else if code == 102 {
        Some("The requested API does not exist"@)
    } else if code == 103 {
        Some("The requested method does not exist"@)
    } else if code == 104 {
        Some("The requested version does not support the functionality"@)
    } else if code == 105 {
        Some("The logged in session does not have permission"@)
    } else if code == 106 {
        Some("Session timeout"@)
    } else if code == 107 {
        Some("Session interrupted by duplicate login"@)
    } else if code == 119 {
        Some("SID not found"@)
    } else {
        None
    }
}

/// Tier 2: the file-operation common table, shared by the file-station
/// namespaces.
pub open spec fn file_common_entry(code: i64) -> Option<Seq<char>> {
    if code == 400 {
        Some("Invalid parameter of file operation"@)
    } else if code == 401 {
        Some("Unknown error of file operation"@)
    } else if code == 402 {
        Some("System is too busy"@)
    } else if code == 403 {
        Some("Invalid user does this file operation"@)
    } else if code == 404 {
        Some("Invalid group does this file operation"@)
    } else if code == 405 {
        Some("Invalid user and group does this file operation"@)
    } else if code == 406 {
        Some("Can't get user/group information from the account server"@)
    } else if code == 407 {
        Some("Operation not permitted"@)
    } else if code == 408 {
        Some("No such file or directory"@)
    } else if code == 409 {
        Some("Non-supported file system"@)
    } else if code == 410 {
        Some("Failed to connect internet-based file system (ex: CIFS)"@)
    } else if code == 411 {
        Some("Read-only file system"@)
    } else if code == 412 {
        Some("Filename too long in the non-encrypted file system"@)
    } else if code == 413 {
        Some("Filename too long in the encrypted file system"@)
    } else if code == 414 {
        Some("File already exists"@)
    } else if code == 415 {
        Some("Disk quota exceeded"@)
    } else if code == 416 {
        Some("No space left on device"@)
    } else if code == 417 {
        Some("Input/output error"@)
    } else if code == 418 {
        Some("Illegal name or path"@)
    } else if code == 419 {
        Some("Illegal file name"@)
    } else if code == 420 {
        Some("Illegal file name on FAT file system"@)
    } else if code == 421 {
        Some("Device or resource busy"@)
    } else if code == 599 {
        Some("No such task of the file operation"@)
    } else {
        None
    }
}

/// Tier 1 for the Auth namespace.
pub open spec fn auth_entry(code: i64) -> Option<Seq<char>> {
    if code == 400 {
        Some("No such account or incorrect password"@)
    } else if code == 401 {
        Some("Account disabled"@)
    } else if code == 402 {
        Some("Permission denied"@)
    } else if code == 403 {
        Some("2-step verification code required"@)
    } else if code == 404 {
        Some("Failed to authenticate 2-step verification code"@)
    } else {
        None
    }
}

/// Tier 1 for the upload namespace.
pub open spec fn upload_entry(code: i64) -> Option<Seq<char>> {
    if code == 1800 {
        Some(
            "There is no Content-Length information in the HTTP header or the receved size doesn't match the value of Content-Length information in the HTTP header."@,
        )
    } else if code == 1801 {
        Some(
            "Wait too long, no date can be receved from client. (Default maximum wait time is 3600 seconds)."@,
        )
    } else if code == 1802 {
        Some("No filename information in the last part of file content."@)
    } else if code == 1803 {
        Some("Upload connection is cancelled."@)
    } else if code == 1804 {
        Some("Failed to upload oversized file to FAT file system."@)
    } else if code == 1805 {
        Some("Can't overwrite or skip the existed file, if no `overwrite` parameter is given."@)
    } else {
        None
    }
}

/// Tier 4: the generic string for a wholly unknown code.
pub open spec fn unknown_code_msg() -> Seq<char> {
    "Error code unknown"@
}

/// Tier 1 table of a namespace, where it has one.
pub open spec fn specific_entry(ns: Namespace, code: i64) -> Option<Seq<char>> {
    match ns {
        Namespace::Auth => auth_entry(code),
        Namespace::FileStationUpload => upload_entry(code),
        _ => None,
    }
}

/// Whether tier 2 (the file-operation common table) applies to a namespace.
pub open spec fn is_file_station(ns: Namespace) -> bool {
    match ns {
        Namespace::FileStationInfo => true,
        Namespace::FileStationUpload => true,
        Namespace::FileStationList => true,
        _ => false,
    }
}

/// The decoded message for a (namespace, code) pair: tier 1, else tier 2
/// (file-station namespaces only), else tier 3, else the generic string.
pub open spec fn spec_decode(ns: Namespace, code: i64) -> Seq<char> {
    match specific_entry(ns, code) {
        Some(m) => m,
        None => match (if is_file_station(ns) {
            file_common_entry(code)
        } else {
            None
        }) {
            Some(m) => m,
            None => match protocol_common_entry(code) {
                Some(m) => m,
                None => unknown_code_msg(),
            },
        },
    }
}

/// Decodes a code under the protocol common table, with the generic
/// fallback string for an unknown code.
pub fn format_common_error(code: i64) -> (r: String)
    ensures
        r@ == (match protocol_common_entry(code) {
            Some(m) => m,
            None => unknown_code_msg(),
        }),
{
    if code == 100 {
        "Unknown error".to_owned()
    } else if code == 101 {
        "No parameter of API, method or version".to_owned()
    } else if code == 102 {
        "The requested API does not exist".to_owned()
    } else if code == 103 {
        "The requested method does not exist".to_owned()
    } else if code == 104 {
        "The requested version does not support the functionality".to_owned()
    } else if code == 105 {
        "The logged in session does not have permission".to_owned()
    } else if code == 106 {
        "Session timeout".to_owned()
    } else if code == 107 {
        "Session interrupted by duplicate login".to_owned()
    } else if code == 119 {
        "SID not found".to_owned()
    } else {
        "Error code unknown".to_owned()
    }
}

/// Decodes a code under the file-operation common table, falling through to
/// the protocol common table.
pub fn file_station_common_error_str(code: i64) -> (r: String)
    ensures
        r@ == (match file_common_entry(code) {
            Some(m) => m,
            None => match protocol_common_entry(code) {
                Some(m) => m,
                None => unknown_code_msg(),
            },
        }),
{
    if code == 400 {
        "Invalid parameter of file operation".to_owned()
    } else if code == 401 {
        "Unknown error of file operation".to_owned()
    } else if code == 402 {
        "System is too busy".to_owned()
    } else if code == 403 {
        "Invalid user does this file operation".to_owned()
    } else if code == 404 {
        "Invalid group does this file operation".to_owned()
    } else if code == 405 {
        "Invalid user and group does this file operation".to_owned()
    } else if code == 406 {
        "Can't get user/group information from the account server".to_owned()
    } else if code == 407 {
        "Operation not permitted".to_owned()
    } else if code == 408 {
        "No such file or directory".to_owned()
    } else if code == 409 {
        "Non-supported file system".to_owned()
    } else if code == 410 {
        "Failed to connect internet-based file system (ex: CIFS)".to_owned()
    } else if code == 411 {
        "Read-only file system".to_owned()
    } else if code == 412 {
        "Filename too long in the non-encrypted file system".to_owned()
    } else if code == 413 {
        "Filename too long in the encrypted file system".to_owned()
    } else if code == 414 {
        "File already exists".to_owned()
    } else if code == 415 {
        "Disk quota exceeded".to_owned()
    } else if code == 416 {
        "No space left on device".to_owned()
    } else if code == 417 {
        "Input/output error".to_owned()
    } else if code == 418 {
        "Illegal name or path".to_owned()
    } else if code == 419 {
        "Illegal file name".to_owned()
    } else if code == 420 {
        "Illegal file name on FAT file system".to_owned()
    } else if code == 421 {
        "Device or resource busy".to_owned()
    } else if code == 599 {
        "No such task of the file operation".to_owned()
    } else {
        format_common_error(code)
    }
}

/// Decodes a code under the Auth namespace: its specific table first, then
/// the protocol common table.
pub fn auth_error_str(code: i64) -> (r: String)
    ensures
        r@ == spec_decode(Namespace::Auth, code),
{
    if code == 400 {
        "No such account or incorrect password".to_owned()
    } else if code == 401 {
        "Account disabled".to_owned()
    } else if code == 402 {
        "Permission denied".to_owned()
    } else if code == 403 {
        "2-step verification code required".to_owned()
    } else if code == 404 {
        "Failed to authenticate 2-step verification code".to_owned()
    } else {
        format_common_error(code)
    }
}

/// Decodes a code under the upload namespace: its specific table first,
/// then the two common tiers.
pub fn file_station_upload_error_str(code: i64) -> (r: String)
    ensures
        r@ == spec_decode(Namespace::FileStationUpload, code),
{
    if code == 1800 {
        "There is no Content-Length information in the HTTP header or the receved size doesn't match the value of Content-Length information in the HTTP header.".to_owned()
    } else if code == 1801 {
        "Wait too long, no date can be receved from client. (Default maximum wait time is 3600 seconds).".to_owned()
    } else if code == 1802 {
        "No filename information in the last part of file content.".to_owned()
    } else if code == 1803 {
        "Upload connection is cancelled.".to_owned()
    } else if code == 1804 {
        "Failed to upload oversized file to FAT file system.".to_owned()
    } else if code == 1805 {
        "Can't overwrite or skip the existed file, if no `overwrite` parameter is given.".to_owned()
    } else {
        file_station_common_error_str(code)
    }
}

/// The full layered lookup, keyed on the (namespace, code) pair: the same
/// integer means different faults under different namespaces.
pub fn decode(ns: Namespace, code: i64) -> (r: String)
    ensures
        r@ == spec_decode(ns, code),
{
    match ns {
        Namespace::ApiInfo => format_common_error(code),
        Namespace::Auth => auth_error_str(code),
        Namespace::FileStationInfo => file_station_common_error_str(code),
        Namespace::FileStationUpload => file_station_upload_error_str(code),
        Namespace::FileStationList => file_station_common_error_str(code),
    }
}

/// Law: the namespace-specific table is consulted first, so a pair present
/// in it decodes to exactly that tier's string.
pub proof fn lemma_specific_tier_wins(ns: Namespace, code: i64)
    requires
        specific_entry(ns, code) is Some,
    ensures
        spec_decode(ns, code) == specific_entry(ns, code)->Some_0,
{
}

/// Law: a code absent from a file-station namespace's specific table but
/// present in the file-operation common table decodes to the common
/// table's string.
pub proof fn lemma_file_common_fallback(ns: Namespace, code: i64)
    requires
        is_file_station(ns),
        specific_entry(ns, code) is None,
        file_common_entry(code) is Some,
    ensures
        spec_decode(ns, code) == file_common_entry(code)->Some_0,
{
}

/// Law: a code absent from every applicable specific and common table
/// decodes under the protocol common table.
pub proof fn lemma_protocol_common_fallback(ns: Namespace, code: i64)
    requires
        specific_entry(ns, code) is None,
        is_file_station(ns) ==> file_common_entry(code) is None,
        protocol_common_entry(code) is Some,
    ensures
        spec_decode(ns, code) == protocol_common_entry(code)->Some_0,
{
}

/// Law: a wholly unknown code decodes to the generic fallback string,
/// whatever the namespace.
pub proof fn lemma_unknown_code(ns: Namespace, code: i64)
    requires
        specific_entry(ns, code) is None,
        file_common_entry(code) is None,
        protocol_common_entry(code) is None,
    ensures
        spec_decode(ns, code) == unknown_code_msg(),
{
}

} // verus!
