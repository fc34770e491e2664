use syno_client::api::ApiDescriptor;
use syno_client::api::Directory;
use syno_client::api::Namespace;
use syno_client::error::ClientError;
use syno_client::flow::advance;
use syno_client::flow::step_of;
use syno_client::flow::Event;
use syno_client::flow::Phase;
use syno_client::flow::Step;
use syno_client::share::SharedFolder;

fn descriptor(min: u8, max: u8, path: &str) -> ApiDescriptor {
    ApiDescriptor { min_version: min, max_version: max, path: path.to_string() }
}

fn directory() -> Directory {
    Directory {
        info: descriptor(1, 1, "query.cgi"),
        auth: descriptor(1, 7, "auth.cgi"),
        fs_info: descriptor(1, 2, "entry.cgi"),
        upload: descriptor(2, 3, "entry.cgi"),
        list: descriptor(1, 2, "entry.cgi"),
    }
}

fn shares() -> Vec<SharedFolder> {
    vec![
        SharedFolder { name: "homes".to_string(), path: "/home".to_string() },
        SharedFolder { name: "docs".to_string(), path: "/docs".to_string() },
    ]
}

#[test]
fn happy_path_visits_every_step_and_finishes_clean() {
    let name = "docs".to_string();
    let p = Phase::Discovering;
    assert_eq!(step_of(&p), Some(Step::Discover));
    let p = advance(p, &name, Event::Discovered(Ok(directory())));
    assert_eq!(step_of(&p), Some(Step::Login));
    let p = advance(p, &name, Event::LoginDone(Ok(())));
    assert_eq!(step_of(&p), Some(Step::ListShares));
    let p = advance(p, &name, Event::SharesListed(Ok(shares())));
    assert_eq!(step_of(&p), Some(Step::Upload));
    match &p {
        Phase::Uploading { share_path, .. } => assert_eq!(share_path, "/docs"),
        _ => panic!("expected the uploading phase"),
    }
    let p = advance(p, &name, Event::UploadDone(Ok(())));
    assert_eq!(step_of(&p), Some(Step::Logout));
    let p = advance(p, &name, Event::LogoutDone(Ok(())));
    assert_eq!(step_of(&p), None);
    match p {
        Phase::Finished { run_err, logout_err } => {
            assert!(run_err.is_none());
            assert!(logout_err.is_none());
        }
        _ => panic!("expected the finished phase"),
    }
}

#[test]
fn login_failure_aborts_before_listing_and_without_logout() {
    let name = "docs".to_string();
    let p = advance(Phase::Discovering, &name, Event::Discovered(Ok(directory())));
    let failure = ClientError::Domain {
        namespace: Namespace::Auth,
        code: 400,
        message: "No such account or incorrect password".to_string(),
    };
    let p = advance(p, &name, Event::LoginDone(Err(failure)));
    // The run is over: no further step, in particular no logout, is ever
    // requested, because no session was established.
    assert_eq!(step_of(&p), None);
    match p {
        Phase::Aborted { err: ClientError::Domain { namespace, code, .. } } => {
            assert_eq!(namespace, Namespace::Auth);
            assert_eq!(code, 400);
        }
        _ => panic!("expected the aborted phase"),
    }
}

#[test]
fn discovery_failure_aborts_everything() {
    let name = "docs".to_string();
    let p = advance(
        Phase::Discovering,
        &name,
        Event::Discovered(Err(ClientError::Transport { detail: "connection refused".to_string() })),
    );
    assert_eq!(step_of(&p), None);
    assert!(matches!(p, Phase::Aborted { err: ClientError::Transport { .. } }));
}

#[test]
fn a_missing_share_still_logs_out() {
    let name = "absent".to_string();
    let p = Phase::Listing { dir: directory() };
    let p = advance(p, &name, Event::SharesListed(Ok(shares())));
    // The upload step is skipped, but the session is still released.
    assert_eq!(step_of(&p), Some(Step::Logout));
    match &p {
        Phase::LoggingOut { run_err, .. } => {
            assert!(matches!(run_err, Some(ClientError::ShareNotFound)));
        }
        _ => panic!("expected the logging-out phase"),
    }
    let p = advance(p, &name, Event::LogoutDone(Ok(())));
    match p {
        Phase::Finished { run_err, logout_err } => {
            assert!(matches!(run_err, Some(ClientError::ShareNotFound)));
            assert!(logout_err.is_none());
        }
        _ => panic!("expected the finished phase"),
    }
}

#[test]
fn a_listing_failure_still_logs_out() {
    let name = "docs".to_string();
    let p = Phase::Listing { dir: directory() };
    let failure = ClientError::Domain {
        namespace: Namespace::FileStationList,
        code: 400,
        message: "Invalid parameter of file operation".to_string(),
    };
    let p = advance(p, &name, Event::SharesListed(Err(failure)));
    assert_eq!(step_of(&p), Some(Step::Logout));
}

#[test]
fn an_upload_failure_is_reported_and_still_logs_out() {
    let name = "docs".to_string();
    let p = Phase::Uploading { dir: directory(), share_path: "/docs".to_string() };
    let failure = ClientError::Domain {
        namespace: Namespace::FileStationUpload,
        code: 1805,
        message: "Can't overwrite or skip the existed file, if no `overwrite` parameter is given."
            .to_string(),
    };
    let p = advance(p, &name, Event::UploadDone(Err(failure)));
    assert_eq!(step_of(&p), Some(Step::Logout));
    let p = advance(
        p,
        &name,
        Event::LogoutDone(Err(ClientError::Transport { detail: "reset".to_string() })),
    );
    match p {
        Phase::Finished { run_err, logout_err } => {
            assert!(matches!(run_err, Some(ClientError::Domain { code: 1805, .. })));
            assert!(matches!(logout_err, Some(ClientError::Transport { .. })));
        }
        _ => panic!("expected the finished phase"),
    }
}

#[test]
fn the_first_of_two_equally_named_shares_feeds_the_upload() {
    let name = "dup".to_string();
    let listed = vec![
        SharedFolder { name: "dup".to_string(), path: "/first".to_string() },
        SharedFolder { name: "dup".to_string(), path: "/second".to_string() },
    ];
    let p = Phase::Listing { dir: directory() };
    let p = advance(p, &name, Event::SharesListed(Ok(listed)));
    match &p {
        Phase::Uploading { share_path, .. } => assert_eq!(share_path, "/first"),
        _ => panic!("expected the uploading phase"),
    }
}
