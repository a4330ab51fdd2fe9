use calendar_notifier::app::process_wide;
use calendar_notifier::app::process_wide::{notify_all_outcome, StaticMutState};
use calendar_notifier::app::state::in_mem;
use calendar_notifier::app::state::{
    auth_notices, collect_results, events_outcome, notify_outcome, S,
};
use calendar_notifier::app::{AnyError, App, EnvVars, Error};
use calendar_notifier::calendar::{Cat, Event};
use calendar_notifier::integrate::ad::Auth;
use calendar_notifier::time::Timestamp;

fn s(x: &str) -> String {
    x.to_string()
}

fn env_all() -> EnvVars {
    EnvVars {
        integrate_ad_client_id: Some(s("client")),
        pushbullet_token: Some(s("pb-token")),
        pushbullet_base_url: Some(s("https://api.pushbullet.com/v2")),
        integrate_ad_login_base_url: Some(s("https://login.example")),
    }
}

fn env_none() -> EnvVars {
    EnvVars {
        integrate_ad_client_id: None,
        pushbullet_token: None,
        pushbullet_base_url: None,
        integrate_ad_login_base_url: None,
    }
}

fn any(msg: &str) -> AnyError {
    AnyError { display: s(msg), debug: format!("{:?}", msg) }
}

#[test]
fn empty_app_has_nothing() {
    let a = App::empty();
    assert!(a.notifiers.is_empty() && a.calendars.is_empty());
    assert_eq!(a.pushbullet_token, "");
    assert!(matches!(a.integrate_ad_auth, Auth::NotAuthed { ref client_id, .. } if client_id.is_empty()));
}

#[test]
fn env_sets_up_the_app() {
    let a = App::from_env(env_all()).unwrap();
    assert_eq!(a.integrate_ad_client_id, "client");
    assert_eq!(a.pushbullet_token, "pb-token");
    assert_eq!(a.pushbullet_base_url, "https://api.pushbullet.com/v2");
    assert_eq!(a.integrate_ad_login_base_url, "https://login.example");
    assert_eq!(a.ms_graph_base_url, "");
    match &a.integrate_ad_auth {
        Auth::NotAuthed { client_id, login_base_url, graph_base_url } => {
            assert_eq!(client_id, "client");
            assert_eq!(login_base_url, "https://login.example");
            assert_eq!(graph_base_url, "");
        },
        other => panic!("unexpected {:?}", other),
    }
    assert_eq!(a.notifiers.len(), 1);
    assert_eq!(a.notifiers[0].token, "pb-token");
    assert_eq!(a.notifiers[0].base_url, "https://api.pushbullet.com/v2");
    assert_eq!(a.calendars.len(), 1);
}

#[test]
fn missing_variables_are_named_in_order() {
    match App::from_env(env_none()) {
        Err(Error::EnvVarsMissing(names)) => assert_eq!(
            names,
            vec!["INTEGRATE_AD_CLIENT_ID", "PUSHBULLET_TOKEN", "PUSHBULLET_BASE_URL", "INTEGRATE_AD_LOGIN_BASE_URL"]
        ),
        other => panic!("unexpected {:?}", other),
    }
    let mut env = env_all();
    env.pushbullet_base_url = None;
    match App::from_env(env) {
        Err(Error::EnvVarsMissing(names)) => assert_eq!(names, vec!["PUSHBULLET_BASE_URL"]),
        other => panic!("unexpected {:?}", other),
    }
}

#[test]
fn init_auth_keeps_a_started_sign_in() {
    let mut a = App::empty();
    a.integrate_ad_client_id = s("c2");
    a.integrate_ad_auth = Auth::Authed {
        client_id: s("old"),
        login_base_url: s("l"),
        graph_base_url: s("g"),
        expires: Timestamp { secs: 9, nanos: 0 },
        token: s("t"),
        refresh: s("r"),
        id_token: s("i"),
    };
    a.init_integrate_ad_auth();
    assert!(matches!(a.integrate_ad_auth, Auth::Authed { ref client_id, .. } if client_id == "old"));
    a.integrate_ad_auth = Auth::NotAuthed { client_id: s("x"), login_base_url: s("y"), graph_base_url: s("z") };
    a.ms_graph_base_url = s("graph");
    a.init_integrate_ad_auth();
    assert!(matches!(a.integrate_ad_auth, Auth::NotAuthed { ref client_id, ref graph_base_url, .. }
        if client_id == "c2" && graph_base_url == "graph"));
}

#[test]
fn in_mem_store_reads_what_was_written() {
    let mut st = in_mem::State::new();
    assert!(!st.already_init());
    assert!(matches!(st.read(env_none()), Err(Error::EnvVarsMissing(_))));
    assert!(!st.already_init());
    assert_eq!(st.read(env_all()).unwrap().pushbullet_token, "pb-token");
    // once held, the environment no longer matters
    assert_eq!(st.read(env_none()).unwrap().pushbullet_token, "pb-token");
    st.modify(env_none(), |mut a| {
        a.pushbullet_token = s("changed");
        Ok(a)
    })
    .unwrap();
    assert_eq!(st.read(env_none()).unwrap().pushbullet_token, "changed");
}

#[test]
fn in_mem_failed_update_drops_the_state() {
    let mut st = in_mem::State::new();
    st.init(env_all()).unwrap();
    match st.modify(env_all(), |_a| Err(any("boom"))) {
        Err(Error::Any(e)) => assert_eq!(e.display, "boom"),
        other => panic!("unexpected {:?}", other),
    }
    assert!(!st.already_init());
    // the next read sets it up again from the environment
    assert_eq!(st.read(env_all()).unwrap().pushbullet_token, "pb-token");
}

#[test]
fn in_mem_update_in_two_halves() {
    let mut st = in_mem::State::new();
    let mut a = st.take_for_update(env_all()).unwrap();
    assert!(!st.already_init());
    a.ms_graph_base_url = s("g");
    st.finish_update(Ok(a)).unwrap();
    assert_eq!(st.read(env_none()).unwrap().ms_graph_base_url, "g");
    let a = st.take_for_update(env_none()).unwrap();
    drop(a);
    assert!(matches!(st.finish_update(Err(any("no"))), Err(Error::Any(_))));
    assert!(!st.already_init());
}

#[test]
fn file_store_holds_what_was_written() {
    let mut st = calendar_notifier::app::state::file::State::new();
    assert!(matches!(st.read(), Err(Error::Other(ref m)) if m == "CUR should have been initialized"));
    let mut loaded = App::empty();
    loaded.pushbullet_token = s("from-file");
    st.init_with(loaded);
    let a = st.read().unwrap();
    assert_eq!(a.pushbullet_token, "from-file");
    assert_eq!(a.notifiers.len(), 1);
    assert_eq!(a.calendars.len(), 1);
    let mut a = st.take().unwrap();
    assert!(matches!(st.take(), Err(Error::Other(ref m)) if m == "CUR not set"));
    a.pushbullet_token = s("written");
    st.write(a);
    assert_eq!(st.read().unwrap().pushbullet_token, "written");
}

#[test]
fn global_state_names_the_missing_variables() {
    let mut st = StaticMutState::new();
    match st.init(None, None) {
        Err(process_wide::Error::EnvVarsMissing(names)) => {
            assert_eq!(names, vec!["INTEGRATE_AD_CLIENT_ID", "PUSHBULLET_TOKEN"])
        },
        other => panic!("unexpected {:?}", other),
    }
    match st.init(Some(s("id")), None) {
        Err(process_wide::Error::EnvVarsMissing(names)) => assert_eq!(names, vec!["PUSHBULLET_TOKEN"]),
        other => panic!("unexpected {:?}", other),
    }
    match st.init(None, Some(s("tok"))) {
        Err(process_wide::Error::EnvVarsMissing(names)) => {
            assert_eq!(names, vec!["INTEGRATE_AD_CLIENT_ID"])
        },
        other => panic!("unexpected {:?}", other),
    }
    let a = st.read(Some(s("v1")), Some(s("v2"))).unwrap();
    assert_eq!(a.integrate_ad_client_id, "v1");
    assert_eq!(a.pushbullet_token, "v2");
    match &a.integrate_ad_auth {
        Auth::NotAuthed { client_id, login_base_url, graph_base_url } => {
            assert_eq!(client_id, "v1");
            assert_eq!(login_base_url, "https://login.microsoftonline.com/organizations/oauth2/v2.0");
            assert_eq!(graph_base_url, "");
        },
        other => panic!("unexpected {:?}", other),
    }
    st.modify(None, None, |mut a| {
        a.pushbullet_token = s("v3");
        Ok(a)
    })
    .unwrap();
    assert_eq!(st.read(None, None).unwrap().pushbullet_token, "v3");
    assert!(matches!(st.modify(None, None, |_a| Err(any("x"))), Err(process_wide::Error::Any(_))));
    assert!(!st.already_init());
}

#[test]
fn notify_all_collects_trailing_errors() {
    assert_eq!(notify_all_outcome::<u8>(vec![Ok(()), Ok(())]), Ok(()));
    assert_eq!(notify_all_outcome(vec![Ok(()), Err(1u8), Err(2u8)]), Err(vec![1, 2]));
    assert_eq!(notify_all_outcome::<u8>(vec![]), Ok(()));
}

#[test]
fn mode_selects_the_store() {
    assert_eq!(S::from_mode(Some("FILE")), S::File);
    assert_eq!(S::from_mode(Some("file")), S::InMem);
    assert_eq!(S::from_mode(Some("")), S::InMem);
    assert_eq!(S::from_mode(None), S::InMem);
}

#[test]
fn sign_in_notices_only_while_waiting() {
    let w = Auth::WaitForCodeAuth {
        message: s("enter it"),
        my_code: s("d"),
        user_code: s("ABC"),
        url: s("u"),
        client_id: s("c"),
        login_base_url: s("l"),
        graph_base_url: s("g"),
    };
    let n: Vec<(String, String)> = auth_notices(&w).into_iter().map(|n| (n.title, n.body)).collect();
    assert_eq!(n, vec![(s("Auth needed"), s("enter it")), (s("Code"), s("ABC"))]);
    let na = Auth::NotAuthed { client_id: s("c"), login_base_url: s("l"), graph_base_url: s("g") };
    assert!(auth_notices(&na).is_empty());
}

#[test]
fn collect_results_keeps_order() {
    let ok: Vec<Result<u8, &str>> = vec![Ok(1), Ok(2), Ok(3)];
    assert_eq!(collect_results(ok), Ok(vec![1, 2, 3]));
    let mixed: Vec<Result<u8, &str>> = vec![Ok(1), Err("a"), Ok(3), Err("b")];
    assert_eq!(collect_results(mixed), Err(vec!["a", "b"]));
    let none: Vec<Result<u8, &str>> = vec![];
    assert_eq!(collect_results(none), Ok(vec![]));
}

fn ev(title: &str) -> Event {
    Event {
        cat: Cat::Work,
        title: s(title),
        time_start: Timestamp { secs: 0, nanos: 0 },
        time_end: Timestamp { secs: 60, nanos: 0 },
        location: None,
    }
}

#[test]
fn events_of_all_calendars_joined() {
    let r = events_outcome(vec![Ok(vec![ev("a"), ev("b")]), Ok(vec![]), Ok(vec![ev("c")])]).unwrap();
    assert_eq!(r.iter().map(|e| e.title.as_str()).collect::<Vec<_>>(), vec!["a", "b", "c"]);
    match events_outcome(vec![Ok(vec![ev("a")]), Err(any("x")), Err(any("y"))]) {
        Err(Error::Many(es)) => {
            assert_eq!(es.iter().map(|e| e.display.as_str()).collect::<Vec<_>>(), vec!["x", "y"])
        },
        other => panic!("unexpected {:?}", other),
    }
}

#[test]
fn notify_outcome_collects_errors() {
    assert!(notify_outcome(vec![Ok(()), Ok(())]).is_ok());
    assert!(matches!(notify_outcome(vec![Err(any("x")), Ok(())]), Err(Error::Many(v)) if v.len() == 1));
}

#[test]
fn process_wide_update_in_two_halves() {
    let mut st = StaticMutState::new();
    assert!(matches!(st.take_for_update(Some(s("a")), None), Err(process_wide::Error::EnvVarsMissing(_))));
    let mut a = st.take_for_update(Some(s("a")), Some(s("b"))).unwrap();
    assert!(!st.already_init());
    a.pushbullet_token = s("c");
    st.finish_update(Ok(a)).unwrap();
    assert_eq!(st.read(None, None).unwrap().pushbullet_token, "c");
    let _ = st.take_for_update(None, None).unwrap();
    assert!(matches!(st.finish_update(Err(any("x"))), Err(process_wide::Error::Any(_))));
    assert!(!st.already_init());
}

#[test]
fn file_store_finishes_an_update() {
    let mut st = calendar_notifier::app::state::file::State::new();
    st.init_with(App::empty());
    let mut a = st.take().unwrap();
    a.pushbullet_token = s("new");
    assert!(st.finish_update(Ok(a)).is_ok());
    assert_eq!(st.read().unwrap().pushbullet_token, "new");
    let _ = st.take().unwrap();
    assert!(matches!(st.finish_update(Err(any("failed"))), Err(Error::Any(_))));
    assert!(!st.already_init());
}
