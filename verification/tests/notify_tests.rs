use calendar_notifier::notify::plain;
use calendar_notifier::notify::pushbullet::{
    is_success, Device, DeviceResponse, ErrorObject, Method, Push, Reply,
};
use calendar_notifier::notify::{pushbullet, Error, Pushbullet, Slack};

fn pb() -> Pushbullet {
    Pushbullet { base_url: "https://api.pushbullet.com/v2".to_string(), token: "t".to_string() }
}

fn pb_error() -> pushbullet::Error {
    pushbullet::Error {
        error: ErrorObject {
            kind: "invalid_request".to_string(),
            message: "bad".to_string(),
            param: None,
            cat: "~(=^.^)".to_string(),
        },
    }
}

#[test]
fn urls_of_the_api() {
    assert_eq!(pb().pushes_url(), "https://api.pushbullet.com/v2/pushes");
    assert_eq!(pb().devices_url(), "https://api.pushbullet.com/v2/devices");
}

#[test]
fn notification_is_a_note() {
    match Pushbullet::note("Today's Events", "nothing") {
        Push::Note { title, body } => {
            assert_eq!(title, "Today's Events");
            assert_eq!(body, "nothing");
        },
    }
}

#[test]
fn success_is_the_2xx_class() {
    assert!(!is_success(199));
    assert!(is_success(200));
    assert!(is_success(204));
    assert!(is_success(299));
    assert!(!is_success(300));
    assert!(!is_success(401));
    for code in [100u16, 200, 250, 299, 300, 404, 500] {
        assert_eq!(is_success(code), reqwest::StatusCode::from_u16(code).unwrap().is_success());
    }
}

#[test]
fn failure_reports_the_error_body() {
    match Pushbullet::failure(Ok(pb_error())) {
        Error::Pushbullet(e) => assert_eq!(e.error.message, "bad"),
        other => panic!("unexpected {:?}", other),
    }
    let json = serde_json::from_str::<u8>("x").unwrap_err();
    assert!(matches!(Pushbullet::failure(Err(Error::Json(json))), Error::Json(_)));
}

#[test]
fn fail_if_error_checks_status_first() {
    assert!(Pushbullet::fail_if_error(200, None).is_ok());
    assert!(matches!(Pushbullet::fail_if_error(403, Some(Ok(pb_error()))), Err(Error::Pushbullet(_))));
    let json = serde_json::from_str::<u8>("x").unwrap_err();
    assert!(matches!(Pushbullet::fail_if_error(500, Some(Err(Error::from(json)))), Err(Error::Json(_))));
}

#[test]
fn errors_convert() {
    let json = serde_json::from_str::<u8>("x").unwrap_err();
    assert!(matches!(Error::from(json), Error::Json(_)));
    assert!(matches!(Error::from(pb_error()), Error::Pushbullet(_)));
    let many = Error::Many(vec![Error::from(pb_error())]);
    assert!(matches!(many, Error::Many(v) if v.len() == 1));
    let _ = Slack;
    let _ = plain::Pushbullet { token: "t".to_string() };
    let _ = (plain::Email, plain::Slack);
}

#[test]
fn requests_carry_the_access_token() {
    let pb = Pushbullet { base_url: "https://pb".to_string(), token: "TOK".to_string() };
    let d = pb.devices_request();
    assert_eq!((d.method, d.url.as_str(), d.access_token.as_str()), (Method::Get, "https://pb/devices", "TOK"));
    assert!(d.push.is_none());
    let n = pb.notify_request("T", "B");
    assert_eq!((n.method, n.url.as_str(), n.access_token.as_str()), (Method::Post, "https://pb/pushes", "TOK"));
    match n.push {
        Some(Push::Note { title, body }) => assert_eq!((title.as_str(), body.as_str()), ("T", "B")),
        None => panic!("no push"),
    }
    let p = pb.push_request(Pushbullet::note("x", "y"));
    assert_eq!((p.method, p.url.as_str()), (Method::Post, "https://pb/pushes"));
}

fn transport_error() -> reqwest::Error {
    reqwest::Client::new().get("not a url").build().unwrap_err()
}

#[test]
fn devices_come_back_in_order() {
    let reply = Reply {
        status: 200,
        error_body: None,
        body: Some(Ok(DeviceResponse {
            devices: vec![Device { iden: "d1".to_string() }, Device { iden: "d2".to_string() }],
        })),
    };
    let ds = Pushbullet::devices_outcome(Ok(reply)).unwrap();
    assert_eq!(ds.iter().map(|d| d.iden.as_str()).collect::<Vec<_>>(), vec!["d1", "d2"]);
    let refused: Reply<DeviceResponse> = Reply { status: 401, error_body: Some(Ok(pb_error())), body: None };
    assert!(matches!(Pushbullet::devices_outcome(Ok(refused)), Err(Error::Pushbullet(_))));
    assert!(matches!(Pushbullet::devices_outcome(Err(transport_error())), Err(Error::Reqwest(_))));
    let json = serde_json::from_str::<u8>("x").unwrap_err();
    let garbled: Reply<DeviceResponse> = Reply { status: 200, error_body: None, body: Some(Err(Error::from(json))) };
    assert!(matches!(Pushbullet::devices_outcome(Ok(garbled)), Err(Error::Json(_))));
}

#[test]
fn push_outcomes() {
    let ok: Reply<()> = Reply { status: 200, error_body: None, body: Some(Ok(())) };
    assert!(Pushbullet::push_outcome(Ok(ok)).is_ok());
    let refused: Reply<()> = Reply { status: 400, error_body: Some(Ok(pb_error())), body: None };
    assert!(matches!(Pushbullet::push_outcome(Ok(refused)), Err(Error::Pushbullet(_))));
    assert!(matches!(Pushbullet::push_outcome(Err(transport_error())), Err(Error::Reqwest(_))));
}

#[test]
fn notify_sends_one_note_with_the_token() {
    let pb = Pushbullet { base_url: "https://pb".to_string(), token: "TOK".to_string() };
    let mut calls = 0;
    let r = pb.notify(
        |q| {
            calls += 1;
            assert_eq!((q.method, q.url.as_str(), q.access_token.as_str()), (Method::Post, "https://pb/pushes", "TOK"));
            match q.push {
                Some(Push::Note { title, body }) => assert_eq!((title.as_str(), body.as_str()), ("T", "B")),
                None => panic!("no push"),
            }
            Ok(Reply { status: 200, error_body: None, body: Some(Ok(())) })
        },
        "T",
        "B",
    );
    assert!(r.is_ok());
    assert_eq!(calls, 1);
    let refused = pb.notify(|_q| Ok(Reply { status: 403, error_body: Some(Ok(pb_error())), body: None }), "T", "B");
    assert!(matches!(refused, Err(Error::Pushbullet(_))));
}

#[test]
fn get_devices_lists_them_in_order() {
    let pb = Pushbullet { base_url: "https://pb".to_string(), token: "TOK".to_string() };
    let ds = pb
        .get_devices(|q| {
            assert_eq!((q.method, q.url.as_str(), q.access_token.as_str()), (Method::Get, "https://pb/devices", "TOK"));
            assert!(q.push.is_none());
            Ok(Reply {
                status: 200,
                error_body: None,
                body: Some(Ok(DeviceResponse {
                    devices: vec![Device { iden: "d1".to_string() }, Device { iden: "d2".to_string() }],
                })),
            })
        })
        .unwrap();
    assert_eq!(ds.iter().map(|d| d.iden.as_str()).collect::<Vec<_>>(), vec!["d1", "d2"]);
}
