use webdebug::attempt::{AttemptKind, AttemptOutcome, TransportFailure};
use webdebug::diagnosis::{Action, Diagnosis, DiagnosisResult, Phase};
use webdebug::method::Method;
use webdebug::probe::{ProbeOutcome, UnreachableCause};
use webdebug::sniff::{classify_reply, SniffResult};
use webdebug::strategy::ClientStrategy;
use webdebug::url::InputError;

fn started(method: &str, url: &str, headers: &str) -> Diagnosis {
    match Diagnosis::start(method, url, headers, "") {
        Ok(d) => d,
        Err(e) => panic!("refused: {}", e.message()),
    }
}

fn reset_failure() -> AttemptOutcome {
    AttemptOutcome::TransportFailed {
        failure: TransportFailure {
            message: "error sending request".to_string(),
            is_timeout: false,
            is_connect: true,
            is_request: true,
            status: None,
            causes: vec!["connection reset by peer".to_string()],
        },
    }
}

fn due_strategy(d: &Diagnosis) -> ClientStrategy {
    match d.next_action() {
        Action::Attempt { strategy, .. } => strategy,
        _ => panic!("no attempt due"),
    }
}

fn finish(d: Diagnosis) -> DiagnosisResult {
    match d.into_result() {
        Some(r) => r,
        None => panic!("not finished"),
    }
}

#[test]
fn plaintext_success_on_first_strategy() {
    let mut d = started("GET", "example.com/api", "");
    assert_eq!(d.normalized_url(), "http://example.com/api");
    assert!(d.trace().starts_with("URL Analysis:\n  Host: example.com\n  Port: 80\n  Scheme: http\n\n"));
    match d.next_action() {
        Action::Probe { host, port } => {
            assert_eq!(host, "example.com");
            assert_eq!(port, 80);
        }
        _ => panic!("probe not due"),
    }
    d.record_probe(ProbeOutcome::Reachable { resolved_address: "93.184.216.34:80".to_string() });
    match d.next_action() {
        Action::Sniff { host, port, https, request } => {
            assert_eq!(host, "example.com");
            assert_eq!(port, 80);
            assert!(!https);
            assert_eq!(request, "GET / HTTP/1.1\r\nHost: example.com\r\nConnection: close\r\n\r\n");
        }
        _ => panic!("sniff not due"),
    }
    let sniffed = classify_reply(b"HTTP/1.1 200 OK\r\nContent-Length: 2\r\n\r\nhi");
    assert!(matches!(sniffed, SniffResult::PlainHttp { .. }));
    d.record_sniff(sniffed);
    match d.next_action() {
        Action::Attempt { strategy, method, url, headers, body } => {
            assert_eq!(strategy, ClientStrategy::Standard);
            assert_eq!(method, Method::Get);
            assert_eq!(url, "http://example.com/api");
            assert!(headers.is_empty());
            assert_eq!(body, "");
        }
        _ => panic!("attempt not due"),
    }
    d.record_attempt(AttemptOutcome::Succeeded {
        status: 200,
        headers: vec!["content-length: 2".to_string()],
        body: "hi".to_string(),
    });
    assert_eq!(d.current_phase(), Phase::Finished);
    assert!(matches!(d.next_action(), Action::Done));
    assert_eq!(d.attempt_records().len(), 1);
    let r = finish(d);
    assert!(r.success);
    assert_eq!(r.url, "http://example.com/api");
    assert_eq!(r.status, "200");
    assert_eq!(r.body, "hi");
    assert_eq!(r.headers, vec!["content-length: 2".to_string()]);
    assert!(r.error.is_none());
    assert!(r.trace.contains("\nTrying Standard...\nSending GET request to: http://example.com/api with Standard\nSuccess with Standard!\nResponse received: 200\n"));
    assert!(!r.trace.contains("Trying Permissive"));
}

#[test]
fn unresolvable_host_stops_before_strategies() {
    let mut d = started("GET", "bad-host-that-does-not-resolve.invalid", "");
    assert_eq!(d.normalized_url(), "http://bad-host-that-does-not-resolve.invalid");
    d.record_probe(ProbeOutcome::Unreachable {
        cause: UnreachableCause::DnsFailure,
        detail: "failed to lookup address information".to_string(),
    });
    assert_eq!(d.current_phase(), Phase::Finished);
    assert!(matches!(d.next_action(), Action::Done));
    assert_eq!(d.attempt_records().len(), 0);
    let r = finish(d);
    assert!(!r.success);
    assert_eq!(r.status, "DNS Resolution Failed");
    assert_eq!(r.url, "http://bad-host-that-does-not-resolve.invalid");
    assert!(r.trace.contains("DNS Resolution Failed: failed to lookup address information\n"));
    assert!(r.trace.contains("ReachabilityError"));
    assert_eq!(r.body, r.trace);
    assert_eq!(
        r.error,
        Some("Cannot establish TCP connection to bad-host-that-does-not-resolve.invalid:80".to_string())
    );
    assert!(!r.trace.contains("Trying"));
}

#[test]
fn tls_byte_on_plain_port_still_tries_all_strategies() {
    let mut d = started("POST", "http://127.0.0.1:8443/", "");
    d.record_probe(ProbeOutcome::Reachable { resolved_address: "127.0.0.1:8443".to_string() });
    d.record_sniff(classify_reply(&[0x16, 0x03, 0x03, 0x00, 0x2a]));
    assert!(d.trace().contains("Server sent TLS handshake on HTTP port"));
    let mut seen = Vec::new();
    while d.current_phase() == Phase::Executing {
        seen.push(due_strategy(&d));
        d.record_attempt(reset_failure());
    }
    assert_eq!(seen, vec![ClientStrategy::Standard, ClientStrategy::Permissive, ClientStrategy::LegacyTls]);
}

#[test]
fn all_strategies_failing_yields_trace() {
    let mut d = started("DELETE", "localhost:9", "");
    assert_eq!(d.normalized_url(), "http://127.0.0.1:9");
    d.record_probe(ProbeOutcome::Reachable { resolved_address: "127.0.0.1:9".to_string() });
    d.record_sniff(SniffResult::ReadFailed { cause: "connection reset".to_string() });
    d.record_attempt(reset_failure());
    d.record_attempt(AttemptOutcome::ClientFailed { detail: "no tls backend".to_string() });
    d.record_attempt(reset_failure());
    let kinds: Vec<AttemptKind> = d.attempt_records().iter().map(|a| a.kind).collect();
    assert_eq!(kinds, vec![AttemptKind::TransportFailed, AttemptKind::ClientFailed, AttemptKind::TransportFailed]);
    let r = finish(d);
    assert!(!r.success);
    assert_eq!(r.status, "Failed");
    assert_eq!(r.error, Some("All Attempts Failed".to_string()));
    assert!(r.headers.is_empty());
    assert_eq!(r.body, r.trace);
    let body = &r.body;
    let a = body.find("\nTrying Standard...\n").expect("standard");
    let b = body.find("\nTrying Permissive...\n").expect("permissive");
    let c = body.find("\nTrying Legacy TLS...\n").expect("legacy");
    assert!(a < b && b < c);
    assert!(body[a..b].contains("Failed with Standard: error sending request\n  Error details:\n"));
    assert!(body[b..c].contains("Failed to create Permissive: no tls backend\n"));
    assert!(body[c..].contains("Failed with Legacy TLS: error sending request\n"));
    assert!(body[c..].contains("    Level 0: connection reset by peer\n"));
    assert!(body.contains("Testing server response...\nRead error: connection reset\n"));
}

#[test]
fn success_on_second_strategy_stops_there() {
    let mut d = started("GET", "https://self-signed.example", "X-Test: 1");
    match d.next_action() {
        Action::Probe { port, .. } => assert_eq!(port, 443),
        _ => panic!("probe not due"),
    }
    d.record_probe(ProbeOutcome::Reachable { resolved_address: "10.1.1.1:443".to_string() });
    match d.next_action() {
        Action::Sniff { https, request, .. } => {
            assert!(https);
            assert_eq!(request, "GET / HTTP/1.1\r\nHost: self-signed.example\r\nX-Test: 1\r\n\r\n");
        }
        _ => panic!("sniff not due"),
    }
    d.record_sniff(SniffResult::TlsHandshake);
    assert!(d.trace().contains("Server responded with TLS handshake\n"));
    d.record_attempt(reset_failure());
    assert_eq!(due_strategy(&d), ClientStrategy::Permissive);
    d.record_attempt(AttemptOutcome::Succeeded { status: 404, headers: vec![], body: "nope".to_string() });
    assert!(matches!(d.next_action(), Action::Done));
    let r = finish(d);
    assert!(r.success);
    assert_eq!(r.status, "404 Not Found");
    assert_eq!(r.body, "nope");
    assert!(!r.trace.contains("Legacy TLS"));
}

#[test]
fn body_read_failure_moves_on() {
    let mut d = started("PUT", "http://example.com", "");
    d.record_probe(ProbeOutcome::Reachable { resolved_address: "1.2.3.4:80".to_string() });
    d.record_sniff(SniffResult::ReadTimeout);
    d.record_attempt(AttemptOutcome::BodyFailed {
        status: 200,
        headers: vec!["a: b".to_string()],
        detail: "error decoding response body".to_string(),
    });
    assert_eq!(d.current_phase(), Phase::Executing);
    assert!(d.trace().contains(
        "Success with Standard!\nResponse received: 200\n  a: b\nUnable to read response body: error decoding response body\n"
    ));
    assert_eq!(due_strategy(&d), ClientStrategy::Permissive);
}

#[test]
fn input_errors_before_any_phase() {
    assert!(matches!(Diagnosis::start("GET", "", "", ""), Err(InputError::EmptyInput)));
    assert!(matches!(Diagnosis::start("FETCH", "", "", ""), Err(InputError::EmptyInput)));
    match Diagnosis::start("FETCH", "example.com", "", "") {
        Err(InputError::UnsupportedMethod { method }) => assert_eq!(method, "FETCH"),
        _ => panic!("method accepted"),
    }
    assert!(matches!(Diagnosis::start("GET", "http://", "", ""), Err(InputError::MalformedUrl { .. })));
}

#[test]
fn same_events_give_same_result() {
    let run = || {
        let mut d = started("GET", "example.com/api", "");
        d.record_probe(ProbeOutcome::Reachable { resolved_address: "1.2.3.4:80".to_string() });
        d.record_sniff(classify_reply(b"HTTP/1.1 200 OK\r\n\r\nhi"));
        d.record_attempt(AttemptOutcome::Succeeded { status: 200, headers: vec![], body: "hi".to_string() });
        finish(d)
    };
    let a = run();
    let b = run();
    assert_eq!(a.status, b.status);
    assert_eq!(a.body, b.body);
    assert_eq!(a.trace, b.trace);
}

#[test]
fn headers_and_body_go_with_every_attempt() {
    let mut d = match Diagnosis::start("POST", "example.com", "Content-Type: application/json\r\nX-Token:  abc \n", "{\"a\":1}") {
        Ok(d) => d,
        Err(_) => panic!("refused"),
    };
    d.record_probe(ProbeOutcome::Reachable { resolved_address: "1.2.3.4:80".to_string() });
    d.record_sniff(SniffResult::ConnectionClosed);
    for _ in 0..2 {
        match d.next_action() {
            Action::Attempt { headers, body, .. } => {
                assert_eq!(
                    headers,
                    vec![
                        ("Content-Type".to_string(), "application/json".to_string()),
                        ("X-Token".to_string(), "abc".to_string())
                    ]
                );
                assert_eq!(body, "{\"a\":1}");
            }
            _ => panic!("attempt not due"),
        }
        d.record_attempt(AttemptOutcome::BuildFailed { detail: "bad header".to_string() });
    }
    assert!(d.trace().contains("Failed to build request with Permissive: bad header\n"));
}
