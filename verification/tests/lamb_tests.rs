use calendar_notifier::lamb::{HttpResponse, Object};

fn entries(o: &Object) -> Vec<(String, String)> {
    let mut v = o.entries().clone();
    v.sort();
    v
}

#[test]
fn new_response_is_empty_ok() {
    let r = HttpResponse::new();
    assert_eq!(r.status, 200);
    assert!(r.headers.is_none());
    assert!(r.body.is_none());
}

#[test]
fn status_and_body_are_set() {
    let r = HttpResponse::new().status(405).body("hello");
    assert_eq!(r.status, 405);
    assert_eq!(r.body.as_deref(), Some("hello"));
    assert!(r.headers.is_none());
}

#[test]
fn header_adds_and_replaces() {
    let r = HttpResponse::new().header("a", "1").header("b", "2").header("a", "3");
    let h = r.headers.expect("headers");
    assert_eq!(h.len(), 2);
    assert_eq!(entries(&h), vec![("a".to_string(), "3".to_string()), ("b".to_string(), "2".to_string())]);
}

#[test]
fn headers_replace_all() {
    let mut o = Object::new();
    o.insert("x".to_string(), "y".to_string());
    let r = HttpResponse::new().header("a", "1").headers(o);
    assert_eq!(entries(r.headers.as_ref().unwrap()), vec![("x".to_string(), "y".to_string())]);
}

#[test]
fn body_json_sets_body_and_content_type() {
    let r = HttpResponse::new().status(500).body_json("{\"success\":false}");
    assert_eq!(r.status, 500);
    assert_eq!(r.body.as_deref(), Some("{\"success\":false}"));
    assert_eq!(
        entries(r.headers.as_ref().unwrap()),
        vec![("content-type".to_string(), "application/json".to_string())]
    );
}

#[test]
fn object_insert_keeps_one_entry_per_key() {
    let mut o = Object::new();
    assert_eq!(o.len(), 0);
    o.insert("k".to_string(), "1".to_string());
    o.insert("k".to_string(), "2".to_string());
    o.insert("j".to_string(), "3".to_string());
    assert_eq!(o.len(), 2);
    assert_eq!(entries(&o), vec![("j".to_string(), "3".to_string()), ("k".to_string(), "2".to_string())]);
}
