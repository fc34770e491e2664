use syno_client::api::Namespace;
use syno_client::envelope::interpret_discovery_response;
use syno_client::error::ClientError;

fn full_body() -> String {
    let mut body = String::new();
    body.push_str(r#"{"success":true,"data":{"#);
    body.push_str(r#""SYNO.API.Info":{"path":"query.cgi","minVersion":1,"maxVersion":1},"#);
    body.push_str(r#""SYNO.API.Auth":{"path":"auth.cgi","minVersion":1,"maxVersion":7},"#);
    body.push_str(r#""SYNO.FileStation.Info":{"path":"entry.cgi","minVersion":1,"maxVersion":2},"#);
    body.push_str(r#""SYNO.FileStation.Upload":{"path":"entry.cgi","minVersion":2,"maxVersion":3},"#);
    body.push_str(r#""SYNO.FileStation.List":{"path":"entry.cgi","minVersion":1,"maxVersion":2}"#);
    body.push_str(r#"}}"#);
    body
}

#[test]
fn discovery_builds_the_full_directory() {
    let dir = interpret_discovery_response(&full_body()).expect("discovery should succeed");
    assert_eq!(dir.info.path, "query.cgi");
    assert_eq!(dir.info.min_version, 1);
    assert_eq!(dir.info.max_version, 1);
    assert_eq!(dir.auth.path, "auth.cgi");
    assert_eq!(dir.auth.min_version, 1);
    assert_eq!(dir.auth.max_version, 7);
    assert_eq!(dir.fs_info.path, "entry.cgi");
    assert_eq!(dir.upload.min_version, 2);
    assert_eq!(dir.upload.max_version, 3);
    assert_eq!(dir.list.path, "entry.cgi");
    assert_eq!(dir.get(Namespace::Auth).max_version, 7);
    assert_eq!(dir.get(Namespace::FileStationUpload).path, "entry.cgi");
}

#[test]
fn discovery_fails_closed_on_a_missing_namespace() {
    let body = full_body().replace("SYNO.FileStation.Upload", "SYNO.FileStation.Other");
    assert!(matches!(
        interpret_discovery_response(&body),
        Err(ClientError::Protocol { .. })
    ));
}

#[test]
fn discovery_rejects_unparseable_version_fields() {
    let body = full_body().replace(r#""minVersion":1,"maxVersion":7"#, r#""minVersion":1,"maxVersion":300"#);
    assert!(matches!(
        interpret_discovery_response(&body),
        Err(ClientError::Protocol { .. })
    ));
    let body = full_body().replace(r#""minVersion":1,"maxVersion":7"#, r#""minVersion":"one","maxVersion":7"#);
    assert!(matches!(
        interpret_discovery_response(&body),
        Err(ClientError::Protocol { .. })
    ));
    let body = full_body().replace(r#""path":"auth.cgi","#, "");
    assert!(matches!(
        interpret_discovery_response(&body),
        Err(ClientError::Protocol { .. })
    ));
}

#[test]
fn discovery_failure_envelope_is_a_domain_error() {
    let r = interpret_discovery_response(r#"{"success":false,"error":{"code":102}}"#);
    match r {
        Err(ClientError::Domain { namespace, code, message }) => {
            assert_eq!(namespace, Namespace::ApiInfo);
            assert_eq!(code, 102);
            assert_eq!(message, "The requested API does not exist");
        }
        _ => panic!("expected a domain error"),
    }
}
