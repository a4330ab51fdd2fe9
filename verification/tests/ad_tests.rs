use calendar_notifier::integrate::ad::{
    Auth, AuthRequest, AuthResponse, CodeResponse, Error, ErrorResponse, RefreshResponse, Replied,
    Replies,
};
use calendar_notifier::time::Timestamp;

fn s(x: &str) -> String {
    x.to_string()
}

fn not_authed() -> Auth {
    Auth::NotAuthed {
        client_id: s("cid"),
        login_base_url: s("https://login.example/oauth2"),
        graph_base_url: s("https://graph.example/v1.0"),
    }
}

fn waiting() -> Auth {
    Auth::WaitForCodeAuth {
        message: s("Go to the page and enter ABC"),
        my_code: s("device-123"),
        user_code: s("ABC"),
        url: s("https://microsoft.com/devicelogin"),
        client_id: s("cid"),
        login_base_url: s("https://login.example/oauth2"),
        graph_base_url: s("https://graph.example/v1.0"),
    }
}

fn authed() -> Auth {
    Auth::Authed {
        client_id: s("cid"),
        login_base_url: s("https://login.example/oauth2"),
        graph_base_url: s("https://graph.example/v1.0"),
        expires: Timestamp { secs: 1000, nanos: 0 },
        token: s("tok"),
        refresh: s("ref"),
        id_token: s("idt"),
    }
}

fn fields(a: &Auth) -> (String, Vec<(String, String)>) {
    let r = a.request();
    (r.url, r.form.into_iter().map(|f| (f.name, f.value)).collect())
}

fn pairs(v: &[(&str, &str)]) -> Vec<(String, String)> {
    v.iter().map(|(a, b)| (s(a), s(b))).collect()
}

#[test]
fn labels_name_the_state() {
    assert_eq!(not_authed().dbg_label(), "NotAuthed");
    assert_eq!(waiting().dbg_label(), "WaitForCodeAuth");
    assert_eq!(authed().dbg_label(), "Authed");
}

#[test]
fn accessors_only_answer_in_their_state() {
    assert_eq!(not_authed().token(), None);
    assert_eq!(waiting().token(), None);
    assert_eq!(authed().token(), Some("tok"));
    assert_eq!(waiting().wait_msg(), Some("Go to the page and enter ABC"));
    assert_eq!(waiting().user_code(), Some("ABC"));
    assert_eq!(not_authed().wait_msg(), None);
    assert_eq!(authed().user_code(), None);
}

#[test]
fn shared_settings_of_every_state() {
    for a in [not_authed(), waiting(), authed()] {
        let sh = a.shared();
        assert_eq!(sh.client_id, "cid");
        assert_eq!(sh.login_base_url, "https://login.example/oauth2");
        assert_eq!(sh.graph_base_url, "https://graph.example/v1.0");
    }
}

#[test]
fn request_of_each_state() {
    assert_eq!(
        fields(&not_authed()),
        (
            s("https://login.example/oauth2/devicecode"),
            pairs(&[("client_id", "cid"), ("scope", "openid offline_access Calendars.Read")])
        )
    );
    assert_eq!(
        fields(&waiting()),
        (
            s("https://login.example/oauth2/token"),
            pairs(&[
                ("client_id", "cid"),
                ("grant_type", "urn:ietf:params:oauth:grant-type:device_code"),
                ("device_code", "device-123"),
            ])
        )
    );
    assert_eq!(
        fields(&authed()),
        (
            s("https://login.example/oauth2/token"),
            pairs(&[
                ("client_id", "cid"),
                ("grant_type", "refresh_token"),
                ("refresh_token", "ref"),
                ("scope", "openid offline_access Calendars.Read"),
            ])
        )
    );
}

fn err_resp(code: &str) -> ErrorResponse {
    ErrorResponse { error: s(code), error_description: s("description of it") }
}

#[test]
fn error_replies_map_to_errors() {
    assert!(matches!(Error::from(err_resp("authorization_pending")), Error::CodePending));
    assert!(matches!(Error::from(err_resp("authorization_declined")), Error::CodeDeclined));
    assert!(matches!(Error::from(err_resp("bad_verification_code")), Error::CodeBad));
    assert!(matches!(Error::from(err_resp("expired_token")), Error::CodeExpired));
    match Error::from(err_resp("invalid_grant")) {
        Error::Other(d) => assert_eq!(d, "description of it"),
        e => panic!("unexpected {:?}", e),
    }
}

#[test]
fn try_parse_prefers_error_reply() {
    let parsed: Result<u32, serde_json::Error> = Ok(7);
    assert!(matches!(Auth::try_parse(Some(err_resp("expired_token")), parsed), Err(Error::CodeExpired)));
    let parsed: Result<u32, serde_json::Error> = Ok(7);
    assert!(matches!(Auth::try_parse(None, parsed), Ok(7)));
    let parsed: Result<u32, serde_json::Error> = serde_json::from_str::<u32>("nope");
    assert!(matches!(Auth::try_parse(None, parsed), Err(Error::Json(_))));
}

fn code() -> CodeResponse {
    CodeResponse {
        message: s("Enter XYZ"),
        device_code: s("dev-9"),
        user_code: s("XYZ"),
        verification_uri: s("https://aka.ms/devicelogin"),
    }
}

fn unreadable<T>() -> Result<T, serde_json::Error> {
    Err(serde_json::from_str::<serde_json::Value>("not json").unwrap_err())
}

fn transport_error() -> reqwest::Error {
    reqwest::Client::new().get("not a url").build().unwrap_err()
}

fn sent(q: &AuthRequest) -> (String, Vec<(String, String)>) {
    (q.url.clone(), q.form.iter().map(|f| (f.name.clone(), f.value.clone())).collect())
}

fn code_replies(c: CodeResponse) -> Replies {
    Replies { error_reply: None, code: Ok(c), token: unreadable(), refreshed: unreadable() }
}

fn token_replies(a: AuthResponse) -> Replies {
    Replies { error_reply: None, code: unreadable(), token: Ok(a), refreshed: unreadable() }
}

fn refresh_replies(r: RefreshResponse) -> Replies {
    Replies { error_reply: None, code: unreadable(), token: unreadable(), refreshed: Ok(r) }
}

fn granted(expires_in: u32, access: &str, refresh: &str, id: &str) -> AuthResponse {
    AuthResponse {
        token_type: s("Bearer"),
        scope: s("Calendars.Read"),
        expires_in,
        access_token: s(access),
        refresh_token: s(refresh),
        id_token: s(id),
    }
}

fn refreshed(expires_in: u32, access: &str, id: &str) -> RefreshResponse {
    RefreshResponse {
        token_type: s("Bearer"),
        scope: s("s"),
        expires_in,
        access_token: s(access),
        id_token: s(id),
    }
}

#[test]
fn code_reply_starts_waiting() {
    let now = Timestamp { secs: 50, nanos: 0 };
    let mut calls = 0;
    let next = not_authed()
        .authenticate(
            |q| {
                calls += 1;
                assert_eq!(sent(&q), fields(&not_authed()));
                Ok(code_replies(code()))
            },
            now,
        )
        .unwrap();
    assert_eq!(calls, 1);
    match next {
        Auth::WaitForCodeAuth { message, my_code, user_code, url, client_id, login_base_url, graph_base_url } => {
            assert_eq!(message, "Enter XYZ");
            assert_eq!(my_code, "dev-9");
            assert_eq!(user_code, "XYZ");
            assert_eq!(url, "https://aka.ms/devicelogin");
            assert_eq!(client_id, "cid");
            assert_eq!(login_base_url, "https://login.example/oauth2");
            assert_eq!(graph_base_url, "https://graph.example/v1.0");
        },
        other => panic!("unexpected {:?}", other),
    }
}

#[test]
fn start_code_flow_posts_for_a_device_code() {
    let a = Auth::NotAuthed { client_id: s("cid"), login_base_url: s("https://l"), graph_base_url: s("https://g") };
    let next = a
        .start_code_flow(|q| {
            assert_eq!(
                sent(&q),
                (s("https://l/devicecode"), pairs(&[("client_id", "cid"), ("scope", "openid offline_access Calendars.Read")]))
            );
            Ok(Replied {
                error_reply: None,
                parsed: Ok(CodeResponse {
                    message: s("go"),
                    device_code: s("DEV"),
                    user_code: s("USR"),
                    verification_uri: s("https://v"),
                }),
            })
        })
        .unwrap();
    match next {
        Auth::WaitForCodeAuth { message, my_code, user_code, url, client_id, login_base_url, graph_base_url } => {
            assert_eq!((message.as_str(), my_code.as_str(), user_code.as_str(), url.as_str()), ("go", "DEV", "USR", "https://v"));
            assert_eq!((client_id.as_str(), login_base_url.as_str(), graph_base_url.as_str()), ("cid", "https://l", "https://g"));
        },
        other => panic!("unexpected {:?}", other),
    }
}

fn waiting_dev() -> Auth {
    Auth::WaitForCodeAuth {
        message: s("m"),
        my_code: s("DEV"),
        user_code: s("USR"),
        url: s("https://v"),
        client_id: s("cid"),
        login_base_url: s("https://l"),
        graph_base_url: s("https://g"),
    }
}

fn token_poll() -> (String, Vec<(String, String)>) {
    (
        s("https://l/token"),
        pairs(&[
            ("client_id", "cid"),
            ("grant_type", "urn:ietf:params:oauth:grant-type:device_code"),
            ("device_code", "DEV"),
        ]),
    )
}

#[test]
fn check_authed_polls_with_the_device_code() {
    let now = Timestamp { secs: 1_617_900_000, nanos: 0 };
    let next = waiting_dev()
        .check_authed(
            |q| {
                assert_eq!(sent(&q), token_poll());
                Ok(Replied { error_reply: None, parsed: Ok(granted(3600, "A", "R", "I")) })
            },
            now,
        )
        .unwrap();
    match next {
        Auth::Authed { client_id, expires, token, refresh, id_token, .. } => {
            assert_eq!(client_id, "cid");
            assert_eq!(expires, Timestamp { secs: 1_617_903_600, nanos: 0 });
            assert_eq!((token.as_str(), refresh.as_str(), id_token.as_str()), ("A", "R", "I"));
        },
        other => panic!("unexpected {:?}", other),
    }
}

#[test]
fn check_authed_reports_a_pending_code() {
    let now = Timestamp { secs: 0, nanos: 0 };
    let r = waiting_dev().check_authed(
        |q| {
            assert_eq!(sent(&q), token_poll());
            Ok(Replied {
                error_reply: Some(ErrorResponse { error: s("authorization_pending"), error_description: s("wait") }),
                parsed: unreadable(),
            })
        },
        now,
    );
    assert!(matches!(r, Err(Error::CodePending)));
}

#[test]
fn check_authed_reports_a_failed_exchange() {
    let now = Timestamp { secs: 0, nanos: 0 };
    let r = waiting_dev().check_authed(|_q| Err(transport_error()), now);
    assert!(matches!(r, Err(Error::Reqwest(_))));
    let r = waiting_dev().check_authed(|_q| Ok(Replied { error_reply: None, parsed: unreadable() }), now);
    assert!(matches!(r, Err(Error::Json(_))));
}

#[test]
fn refresh_posts_the_refresh_token() {
    let a = Auth::Authed {
        client_id: s("cid"),
        login_base_url: s("https://l"),
        graph_base_url: s("https://g"),
        expires: Timestamp { secs: 1_617_908_400, nanos: 0 },
        token: s("OLD"),
        refresh: s("R1"),
        id_token: s("I0"),
    };
    let now = Timestamp { secs: 1_617_912_000, nanos: 0 };
    let next = a
        .refresh(
            |q| {
                assert_eq!(
                    sent(&q),
                    (
                        s("https://l/token"),
                        pairs(&[
                            ("client_id", "cid"),
                            ("grant_type", "refresh_token"),
                            ("refresh_token", "R1"),
                            ("scope", "openid offline_access Calendars.Read"),
                        ])
                    )
                );
                Ok(Replied { error_reply: None, parsed: Ok(refreshed(60, "NEW", "I1")) })
            },
            now,
        )
        .unwrap();
    match next {
        Auth::Authed { client_id, login_base_url, graph_base_url, expires, token, refresh, id_token } => {
            assert_eq!((client_id.as_str(), login_base_url.as_str(), graph_base_url.as_str()), ("cid", "https://l", "https://g"));
            assert_eq!(expires, Timestamp { secs: 1_617_912_060, nanos: 0 });
            assert_eq!((token.as_str(), refresh.as_str(), id_token.as_str()), ("NEW", "R1", "I1"));
        },
        other => panic!("unexpected {:?}", other),
    }
}

#[test]
fn granted_token_signs_in_until_expiry() {
    let now = Timestamp { secs: 1_617_900_000, nanos: 250 };
    let next = waiting()
        .authenticate(
            |q| {
                assert_eq!(sent(&q), fields(&waiting()));
                Ok(token_replies(granted(3599, "access-1", "refresh-1", "id-1")))
            },
            now,
        )
        .unwrap();
    match next {
        Auth::Authed { client_id, expires, token, refresh, id_token, .. } => {
            assert_eq!(client_id, "cid");
            assert_eq!(expires, Timestamp { secs: 1_617_903_599, nanos: 250 });
            assert_eq!(token, "access-1");
            assert_eq!(refresh, "refresh-1");
            assert_eq!(id_token, "id-1");
        },
        other => panic!("unexpected {:?}", other),
    }
}

#[test]
fn refresh_keeps_refresh_token() {
    let now = Timestamp { secs: 2_000, nanos: 0 };
    let next = authed()
        .authenticate(
            |q| {
                assert_eq!(sent(&q), fields(&authed()));
                Ok(refresh_replies(refreshed(60, "access-2", "id-2")))
            },
            now,
        )
        .unwrap();
    match next {
        Auth::Authed { expires, token, refresh, id_token, graph_base_url, .. } => {
            assert_eq!(expires, Timestamp { secs: 2_060, nanos: 0 });
            assert_eq!(token, "access-2");
            assert_eq!(refresh, "ref");
            assert_eq!(id_token, "id-2");
            assert_eq!(graph_base_url, "https://graph.example/v1.0");
        },
        other => panic!("unexpected {:?}", other),
    }
}

#[test]
fn failed_step_returns_the_error() {
    let now = Timestamp { secs: 0, nanos: 0 };
    let pending = Replies {
        error_reply: Some(err_resp("authorization_pending")),
        code: unreadable(),
        token: Ok(granted(10, "a", "r", "i")),
        refreshed: unreadable(),
    };
    assert!(matches!(waiting().authenticate(|_q| Ok(pending), now), Err(Error::CodePending)));
    assert!(matches!(authed().authenticate(|_q| Err(transport_error()), now), Err(Error::Reqwest(_))));
    let wrong_kind = code_replies(code());
    assert!(matches!(authed().authenticate(|_q| Ok(wrong_kind), now), Err(Error::Json(_))));
}

#[test]
fn read_exchange_maps_every_outcome() {
    let e: Result<Replied<u32>, reqwest::Error> = Err(transport_error());
    assert!(matches!(Auth::read_exchange(e), Err(Error::Reqwest(_))));
    let e: Result<Replied<u32>, reqwest::Error> =
        Ok(Replied { error_reply: Some(err_resp("authorization_declined")), parsed: Ok(1) });
    assert!(matches!(Auth::read_exchange(e), Err(Error::CodeDeclined)));
    let e: Result<Replied<u32>, reqwest::Error> = Ok(Replied { error_reply: None, parsed: Ok(5) });
    assert!(matches!(Auth::read_exchange(e), Ok(5)));
}

#[test]
fn clone_is_equal_in_every_field() {
    match authed().clone() {
        Auth::Authed { client_id, login_base_url, graph_base_url, expires, token, refresh, id_token } => {
            assert_eq!((client_id.as_str(), login_base_url.as_str(), graph_base_url.as_str()),
                ("cid", "https://login.example/oauth2", "https://graph.example/v1.0"));
            assert_eq!(expires, Timestamp { secs: 1000, nanos: 0 });
            assert_eq!((token.as_str(), refresh.as_str(), id_token.as_str()), ("tok", "ref", "idt"));
        },
        other => panic!("unexpected {:?}", other),
    }
}

#[test]
fn sign_in_steps_keep_the_settings() {
    let now = Timestamp { secs: 1_000, nanos: 0 };
    let a = not_authed();
    let a = a.authenticate(|_q| Ok(code_replies(code())), now).unwrap();
    let a = a.authenticate(|_q| Ok(token_replies(granted(10, "a1", "r1", "i1"))), now).unwrap();
    let a = a.authenticate(|_q| Ok(refresh_replies(refreshed(20, "a2", "i2"))), now).unwrap();
    let sh = a.shared();
    assert_eq!((sh.client_id, sh.login_base_url, sh.graph_base_url),
        ("cid", "https://login.example/oauth2", "https://graph.example/v1.0"));
    assert_eq!(a.token(), Some("a2"));
    assert_eq!(a.dbg_label(), "Authed");
}
