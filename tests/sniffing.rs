use webdebug::attempt::{render_status, write_failure_details, TransportFailure};
use webdebug::probe::{unreachable_text, write_probe_section, ProbeOutcome, UnreachableCause};
use webdebug::sniff::{build_probe_request, classify_reply, write_sniff_section, SniffResult};
use webdebug::strategy::{build_client, strategy_order, ClientStrategy};
use webdebug::trace::{hex_preview, Trace};
use webdebug::text::push_decimal;

#[test]
fn probe_request_texts() {
    assert_eq!(
        build_probe_request("example.com", "X-A: 1", true),
        "GET / HTTP/1.1\r\nHost: example.com\r\nX-A: 1\r\n\r\n"
    );
    assert_eq!(
        build_probe_request("example.com", "X-A: 1", false),
        "GET / HTTP/1.1\r\nHost: example.com\r\nConnection: close\r\n\r\n"
    );
}

#[test]
fn classify_tls_byte_first() {
    assert!(matches!(classify_reply(&[0x16, 0x03, 0x01, 0x00]), SniffResult::TlsHandshake));
    assert!(matches!(classify_reply(&[0x16]), SniffResult::TlsHandshake));
}

#[test]
fn classify_plain_http() {
    let reply = b"HTTP/1.1 200 OK\r\nContent-Length: 2\r\n\r\nhi";
    match classify_reply(reply) {
        SniffResult::PlainHttp { preview } => assert_eq!(preview, "HTTP/1.1 200 OK\r\nContent-Length: 2\r\n\r\nhi"),
        _ => panic!("not http"),
    }
}

#[test]
fn classify_http_preview_is_short_and_lossy() {
    let mut reply = b"HTTP".to_vec();
    reply.push(0xff);
    reply.extend(std::iter::repeat(b'a').take(200));
    match classify_reply(&reply) {
        SniffResult::PlainHttp { preview } => {
            assert!(preview.starts_with("HTTP\u{fffd}aaa"));
            assert_eq!(preview.chars().count(), 100);
        }
        _ => panic!("not http"),
    }
}

#[test]
fn classify_empty_read() {
    assert!(matches!(classify_reply(&[]), SniffResult::ConnectionClosed));
}

#[test]
fn classify_unrecognized_hex_preview() {
    match classify_reply(b"HTT") {
        SniffResult::Unrecognized { byte_preview } => assert_eq!(byte_preview, "[48, 54, 54]"),
        _ => panic!("recognized"),
    }
    let bytes: Vec<u8> = (0u8..30).collect();
    match classify_reply(&bytes) {
        SniffResult::Unrecognized { byte_preview } => assert_eq!(
            byte_preview,
            "[00, 01, 02, 03, 04, 05, 06, 07, 08, 09, 0a, 0b, 0c, 0d, 0e, 0f, 10, 11, 12, 13]"
        ),
        _ => panic!("recognized"),
    }
}

#[test]
fn hex_preview_format() {
    assert_eq!(hex_preview(&[]), "[]");
    assert_eq!(hex_preview(&[0xab]), "[ab]");
    assert_eq!(hex_preview(&[0x16, 0x03, 0xff]), "[16, 03, ff]");
}

#[test]
fn decimal_rendering() {
    let mut s = String::from("n=");
    push_decimal(&mut s, 0);
    push_decimal(&mut s, 7);
    s.push(',');
    push_decimal(&mut s, 65535);
    s.push(',');
    push_decimal(&mut s, u64::MAX);
    assert_eq!(s, "n=07,65535,18446744073709551615");
}

#[test]
fn sniff_lines_by_scheme() {
    let mut t = Trace::new();
    write_sniff_section(&mut t, &SniffResult::TlsHandshake, false, "h", 80);
    assert_eq!(t.as_str(), "Testing server response...\nServer sent TLS handshake on HTTP port\n");
    let mut t = Trace::new();
    write_sniff_section(&mut t, &SniffResult::TlsHandshake, true, "h", 443);
    assert_eq!(t.as_str(), "Testing server response...\nServer responded with TLS handshake\n");
    let mut t = Trace::new();
    write_sniff_section(&mut t, &SniffResult::ReadTimeout, false, "h", 80);
    assert_eq!(t.as_str(), "Testing server response...\nNo response within timeout\n");
    let mut t = Trace::new();
    write_sniff_section(&mut t, &SniffResult::ConnectionClosed, true, "h", 443);
    assert_eq!(t.as_str(), "Testing server response...\nServer closed connection immediately\n");
    let mut t = Trace::new();
    write_sniff_section(&mut t, &SniffResult::WriteFailed { cause: "broken pipe".to_string() }, true, "h", 8443);
    assert_eq!(t.as_str(), "Testing server response...\nFailed to write request to h:8443: broken pipe\n");
    let mut t = Trace::new();
    write_sniff_section(&mut t, &SniffResult::PlainHttp { preview: "HTTP/1.0 200".to_string() }, false, "h", 80);
    assert_eq!(t.as_str(), "Testing server response...\nNormal HTTP response: \n\nHTTP/1.0 200\n");
}

#[test]
fn probe_sections() {
    let mut t = Trace::new();
    write_probe_section(&mut t, &ProbeOutcome::Reachable { resolved_address: "10.0.0.1:80".to_string() }, "h", 80);
    assert_eq!(t.as_str(), "Resolved DNS to: 10.0.0.1:80\n");
    let mut t = Trace::new();
    let o = ProbeOutcome::Unreachable { cause: UnreachableCause::ConnectRefused, detail: "refused".to_string() };
    write_probe_section(&mut t, &o, "h", 81);
    assert_eq!(
        t.as_str(),
        "TCP Connection Refused: refused\nReachabilityError: Cannot establish TCP connection to h:81\n"
    );
    assert_eq!(unreachable_text("example.com", 443), "Cannot establish TCP connection to example.com:443");
    assert_eq!(UnreachableCause::ConnectTimeout.label(), "TCP Connection Timed Out");
}

#[test]
fn status_rendering() {
    assert_eq!(render_status(200), "200");
    assert_eq!(render_status(404), "404 Not Found");
    assert_eq!(render_status(201), "201 Created");
    assert_eq!(render_status(599), "599 ");
    assert_eq!(render_status(42), "42 ");
}

#[test]
fn failure_detail_block() {
    let f = TransportFailure {
        message: "error sending request".to_string(),
        is_timeout: false,
        is_connect: true,
        is_request: true,
        status: None,
        causes: vec!["client error (Connect)".to_string(), "Connection refused".to_string()],
    };
    let mut t = Trace::new();
    write_failure_details(&mut t, &f);
    assert_eq!(
        t.as_str(),
        "  Error details:\n    Main error: error sending request\n    Timeout: false\n    Connection Error: true\n    Request Error: true\n    Status Code: None\n    Level 0: client error (Connect)\n    Level 1: Connection refused\n"
    );
    let f = TransportFailure {
        message: "m".to_string(),
        is_timeout: true,
        is_connect: false,
        is_request: false,
        status: Some(502),
        causes: vec![],
    };
    let mut t = Trace::new();
    write_failure_details(&mut t, &f);
    assert!(t.as_str().ends_with("    Timeout: true\n    Connection Error: false\n    Request Error: false\n    Status: Code 502\n"));
}

#[test]
fn strategies_in_fixed_order() {
    let order = strategy_order();
    assert_eq!(order, vec![ClientStrategy::Standard, ClientStrategy::Permissive, ClientStrategy::LegacyTls]);
    let names: Vec<&str> = order.iter().map(|s| s.name()).collect();
    assert_eq!(names, vec!["Standard", "Permissive", "Legacy TLS"]);
    for s in &order {
        let c = s.settings();
        assert_eq!(c.total_timeout_secs, 30);
        assert_eq!(c.connect_timeout_secs, 10);
    }
    assert!(!ClientStrategy::Permissive.settings().verify_certificates);
    assert!(ClientStrategy::Standard.settings().verify_hostnames);
    assert!(ClientStrategy::LegacyTls.settings().legacy_tls);
}

#[test]
fn standard_client_builds() {
    assert!(build_client(ClientStrategy::Standard).is_ok());
}

#[test]
fn relaxed_clients_build() {
    assert!(build_client(ClientStrategy::Permissive).is_ok());
    assert!(build_client(ClientStrategy::LegacyTls).is_ok());
}
