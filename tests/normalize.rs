use webdebug::method::Method;
use webdebug::url::{derive_target, normalize_url, InputError};

fn norm(s: &str) -> String {
    match normalize_url(s) {
        Ok(u) => u,
        Err(_) => panic!("refused: {}", s),
    }
}

#[test]
fn scheme_prepended_once() {
    assert_eq!(norm("example.com/api"), "http://example.com/api");
    assert_eq!(norm("http://example.com"), "http://example.com");
    assert_eq!(norm("https://example.com"), "https://example.com");
}

#[test]
fn scheme_check_needs_separator() {
    assert_eq!(norm("httpbin.org/get"), "http://httpbin.org/get");
}

#[test]
fn normalization_is_idempotent() {
    for s in ["example.com", "localhost:8080/x", "https://localhost", "a", "localhostlocalhost"] {
        let once = norm(s);
        assert_eq!(norm(&once), once);
    }
}

#[test]
fn localhost_rewritten() {
    assert_eq!(norm("http://localhost:8080/a"), "http://127.0.0.1:8080/a");
    assert_eq!(norm("localhost"), "http://127.0.0.1");
    assert_eq!(norm("localhost/localhost"), "http://127.0.0.1/127.0.0.1");
}

#[test]
fn localhost_case_sensitive() {
    assert_eq!(norm("LOCALHOST:80"), "http://LOCALHOST:80");
    assert_eq!(norm("LocalHost"), "http://LocalHost");
}

#[test]
fn localhost_substring_inside_longer_host() {
    assert_eq!(norm("localhost.example.com"), "http://127.0.0.1.example.com");
}

#[test]
fn blank_input_refused() {
    assert!(matches!(normalize_url(""), Err(InputError::EmptyInput)));
    assert!(matches!(normalize_url("  \t\n"), Err(InputError::EmptyInput)));
}

#[test]
fn target_defaults_port_by_scheme() {
    let t = match derive_target("http://example.com/api") {
        Ok(t) => t,
        Err(_) => panic!("no target"),
    };
    assert_eq!(t.scheme, "http");
    assert_eq!(t.host, "example.com");
    assert_eq!(t.port, 80);
    assert_eq!(t.path, "/api");
    assert!(!t.is_https());
    let t = match derive_target("https://example.com") {
        Ok(t) => t,
        Err(_) => panic!("no target"),
    };
    assert_eq!(t.port, 443);
    assert_eq!(t.path, "/");
    assert!(t.is_https());
}

#[test]
fn target_explicit_port_and_query() {
    let t = match derive_target("http://127.0.0.1:8080/a/b?x=1&y=2") {
        Ok(t) => t,
        Err(_) => panic!("no target"),
    };
    assert_eq!(t.host, "127.0.0.1");
    assert_eq!(t.port, 8080);
    assert_eq!(t.path, "/a/b?x=1&y=2");
}

#[test]
fn malformed_url_refused() {
    let e = match derive_target("http://") {
        Ok(_) => panic!("accepted"),
        Err(e) => e,
    };
    assert!(matches!(e, InputError::MalformedUrl { .. }));
    assert!(e.message().starts_with("Malformed URL: "));
    assert!(matches!(derive_target("http://exa mple.com"), Err(InputError::MalformedUrl { .. })));
}

#[test]
fn error_messages() {
    assert_eq!(InputError::EmptyInput.message(), "URL is empty");
    let e = InputError::UnsupportedMethod { method: "FETCH".to_string() };
    assert_eq!(e.message(), "Invalid request type");
    let e = InputError::MalformedUrl { detail: "empty host".to_string() };
    assert_eq!(e.message(), "Malformed URL: empty host");
}

#[test]
fn methods_closed_set() {
    assert_eq!(Method::parse("GET"), Some(Method::Get));
    assert_eq!(Method::parse("POST"), Some(Method::Post));
    assert_eq!(Method::parse("PUT"), Some(Method::Put));
    assert_eq!(Method::parse("PATCH"), Some(Method::Patch));
    assert_eq!(Method::parse("DELETE"), Some(Method::Delete));
    assert_eq!(Method::parse("get"), None);
    assert_eq!(Method::parse("HEAD"), None);
    assert_eq!(Method::parse(""), None);
    assert_eq!(Method::Patch.as_str(), "PATCH");
}
