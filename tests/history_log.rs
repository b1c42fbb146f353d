use webdebug::diagnosis::DiagnosisResult;
use webdebug::history::{App, RequestResult};

fn result(index: usize, status: &str, body: &str) -> RequestResult {
    RequestResult::from_diagnosis(
        index,
        String::new(),
        String::new(),
        "http://example.com".to_string(),
        DiagnosisResult {
            url: "http://example.com".to_string(),
            success: true,
            status: status.to_string(),
            headers: vec!["h: v".to_string()],
            body: body.to_string(),
            error: None,
            trace: String::new(),
        },
    )
}

#[test]
fn new_app_is_empty() {
    let app = App::new();
    assert!(!app.is_loading());
    assert!(app.get_response_by_index(1).is_none());
}

#[test]
fn repeated_submissions_get_increasing_numbers() {
    let mut app = App::new();
    let a = app.begin_request();
    let b = app.begin_request();
    assert_eq!(a, 1);
    assert_eq!(b, 2);
    assert!(app.is_loading());
    app.complete(result(a, "200", "hi"));
    assert!(app.is_loading());
    app.complete(result(b, "200", "hi"));
    assert!(!app.is_loading());
    let ra = app.get_response_by_index(a).expect("first");
    let rb = app.get_response_by_index(b).expect("second");
    assert_eq!(ra.index, 1);
    assert_eq!(rb.index, 2);
    assert_eq!(ra.status, rb.status);
    assert_eq!(ra.body, rb.body);
    assert_eq!(ra.headers, vec!["h: v".to_string()]);
}

#[test]
fn late_completion_keeps_order_and_lookup() {
    let mut app = App::new();
    let a = app.begin_request();
    let b = app.begin_request();
    let c = app.begin_request();
    app.complete(result(c, "201 Created", "c"));
    app.complete(result(a, "200", "a"));
    app.complete(result(b, "500 Internal Server Error", "b"));
    assert_eq!(app.get_response_by_index(a).expect("a").body, "a");
    assert_eq!(app.get_response_by_index(b).expect("b").status, "500 Internal Server Error");
    assert_eq!(app.get_response_by_index(c).expect("c").body, "c");
    assert!(app.get_response_by_index(4).is_none());
    assert!(app.get_response_by_index(0).is_none());
}

#[test]
fn duplicate_holds_same_values() {
    let r = RequestResult {
        index: 3,
        req_headers: "X: 1".to_string(),
        req_body: "{}".to_string(),
        url: "http://a".to_string(),
        status: "Failed".to_string(),
        headers: vec![],
        body: "trace".to_string(),
        error: Some("All Attempts Failed".to_string()),
    };
    let d = r.duplicate();
    assert_eq!(d.index, 3);
    assert_eq!(d.req_headers, "X: 1");
    assert_eq!(d.req_body, "{}");
    assert_eq!(d.error, Some("All Attempts Failed".to_string()));
    assert_eq!(d.body, "trace");
}

#[test]
fn numbers_never_handed_out_find_nothing() {
    let mut app = App::new();
    let a = app.begin_request();
    app.complete(result(a, "200", "a"));
    assert!(app.get_response_by_index(0).is_none());
    assert!(app.get_response_by_index(2).is_none());
    assert!(app.awaits(2) == false);
    let b = app.begin_request();
    assert!(app.awaits(b));
    assert!(!app.awaits(a));
    assert_eq!(app.shown(), Some(1));
}
