use syno_client::envelope::interpret_list_response;
use syno_client::error::ClientError;
use syno_client::share::find_share;
use syno_client::share::resolve;
use syno_client::share::SharedFolder;

fn two_shares() -> Vec<SharedFolder> {
    vec![
        SharedFolder { name: "homes".to_string(), path: "/home".to_string() },
        SharedFolder { name: "docs".to_string(), path: "/docs".to_string() },
    ]
}

#[test]
fn resolution_returns_the_matching_share_path() {
    let shares = two_shares();
    let share = resolve(&shares, &"docs".to_string()).expect("docs should resolve");
    assert_eq!(share.path, "/docs");
    let share = resolve(&shares, &"homes".to_string()).expect("homes should resolve");
    assert_eq!(share.path, "/home");
}

#[test]
fn resolution_of_a_missing_name_is_share_not_found() {
    let shares = two_shares();
    assert!(matches!(
        resolve(&shares, &"missing".to_string()),
        Err(ClientError::ShareNotFound)
    ));
}

#[test]
fn matching_is_exact_and_case_sensitive() {
    let shares = two_shares();
    assert!(resolve(&shares, &"Docs".to_string()).is_err());
    assert!(resolve(&shares, &"doc".to_string()).is_err());
    assert!(resolve(&shares, &"docs ".to_string()).is_err());
}

#[test]
fn the_first_of_two_equal_names_wins() {
    let shares = vec![
        SharedFolder { name: "dup".to_string(), path: "/first".to_string() },
        SharedFolder { name: "dup".to_string(), path: "/second".to_string() },
    ];
    assert_eq!(find_share(&shares, &"dup".to_string()), Some(0));
    let share = resolve(&shares, &"dup".to_string()).unwrap();
    assert_eq!(share.path, "/first");
}

#[test]
fn listing_reply_yields_every_share() {
    let mut body = String::new();
    body.push_str(r#"{"success":true,"data":{"shares":["#);
    body.push_str(r#"{"name":"homes","path":"/home"},"#);
    body.push_str(r#"{"name":"docs","path":"/docs"}"#);
    body.push_str(r#"]}}"#);
    let shares = interpret_list_response(&body).expect("listing should parse");
    assert_eq!(shares.len(), 2);
    assert_eq!(shares[0].name, "homes");
    assert_eq!(shares[0].path, "/home");
    assert_eq!(shares[1].name, "docs");
    assert_eq!(shares[1].path, "/docs");
}

#[test]
fn listing_reply_with_a_malformed_share_is_a_protocol_error() {
    let body = r#"{"success":true,"data":{"shares":[{"name":"homes"}]}}"#;
    assert!(matches!(
        interpret_list_response(body),
        Err(ClientError::Protocol { .. })
    ));
    let body = r#"{"success":true,"data":{"shares":{}}}"#;
    assert!(matches!(
        interpret_list_response(body),
        Err(ClientError::Protocol { .. })
    ));
    let body = r#"{"success":true,"data":{}}"#;
    assert!(matches!(
        interpret_list_response(body),
        Err(ClientError::Protocol { .. })
    ));
}
