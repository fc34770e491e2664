use syno_client::api::Namespace;
use syno_client::decode::auth_error_str;
use syno_client::decode::decode;
use syno_client::decode::file_station_common_error_str;
use syno_client::decode::file_station_upload_error_str;
use syno_client::decode::format_common_error;

#[test]
fn protocol_common_exact_strings() {
    assert_eq!(format_common_error(100), "Unknown error");
    assert_eq!(format_common_error(104), "The requested version does not support the functionality");
    assert_eq!(format_common_error(106), "Session timeout");
    assert_eq!(format_common_error(119), "SID not found");
}

#[test]
fn protocol_common_unknown_code() {
    assert_eq!(format_common_error(42), "Error code unknown");
    assert_eq!(format_common_error(-1), "Error code unknown");
    assert_eq!(format_common_error(108), "Error code unknown");
}

#[test]
fn file_common_exact_strings() {
    assert_eq!(file_station_common_error_str(400), "Invalid parameter of file operation");
    assert_eq!(file_station_common_error_str(408), "No such file or directory");
    assert_eq!(file_station_common_error_str(421), "Device or resource busy");
    assert_eq!(file_station_common_error_str(599), "No such task of the file operation");
}

#[test]
fn file_common_falls_back_to_protocol_common() {
    assert_eq!(file_station_common_error_str(106), "Session timeout");
    assert_eq!(file_station_common_error_str(1), "Error code unknown");
}

#[test]
fn auth_exact_strings() {
    assert_eq!(auth_error_str(400), "No such account or incorrect password");
    assert_eq!(auth_error_str(401), "Account disabled");
    assert_eq!(auth_error_str(404), "Failed to authenticate 2-step verification code");
}

#[test]
fn auth_falls_back_to_protocol_common_not_file_common() {
    // 407 is in the file-operation table, but Auth is not a file-station
    // namespace: it must fall through to the protocol common table.
    assert_eq!(auth_error_str(407), "Error code unknown");
    assert_eq!(auth_error_str(107), "Session interrupted by duplicate login");
    assert_eq!(auth_error_str(999), "Error code unknown");
}

#[test]
fn upload_exact_strings() {
    assert_eq!(file_station_upload_error_str(1803), "Upload connection is cancelled.");
    assert_eq!(
        file_station_upload_error_str(1805),
        "Can't overwrite or skip the existed file, if no `overwrite` parameter is given."
    );
}

#[test]
fn upload_falls_back_tier_by_tier() {
    // Absent from the upload table, present in the file-operation table.
    assert_eq!(file_station_upload_error_str(414), "File already exists");
    // Absent from both, present in the protocol common table.
    assert_eq!(file_station_upload_error_str(105), "The logged in session does not have permission");
    // Absent from all three.
    assert_eq!(file_station_upload_error_str(2), "Error code unknown");
}

#[test]
fn decode_is_namespace_scoped() {
    // The same code means different faults under different namespaces.
    assert_eq!(decode(Namespace::Auth, 400), "No such account or incorrect password");
    assert_eq!(decode(Namespace::FileStationList, 400), "Invalid parameter of file operation");
    assert_eq!(decode(Namespace::FileStationUpload, 1800), "There is no Content-Length information in the HTTP header or the receved size doesn't match the value of Content-Length information in the HTTP header.");
    assert_eq!(decode(Namespace::FileStationInfo, 417), "Input/output error");
    assert_eq!(decode(Namespace::ApiInfo, 102), "The requested API does not exist");
    // The discovery namespace has no file-operation tier.
    assert_eq!(decode(Namespace::ApiInfo, 400), "Error code unknown");
}
