//! Protocol sniffing: the literal probe request sent on a raw connection,
//! the classification of the first bytes that come back, and its trace line.

use vstd::prelude::*;
use crate::probe::{endpoint, push_endpoint};
use crate::trace::{Trace, hex_list, hex_preview};

verus! {

/// What the first bytes of the server's reply show. Advisory only: no result
/// of sniffing stops a diagnosis.
#[derive(Debug)]
pub enum SniffResult {
    /// The first byte is 0x16, a TLS handshake record.
    TlsHandshake,
    /// The reply begins with `HTTP`; `preview` is its start, decoded.
    PlainHttp { preview: String },
    /// Anything else; `byte_preview` lists its first bytes in hexadecimal.
    Unrecognized { byte_preview: String },
    /// The server closed the connection without sending a byte.
    ConnectionClosed,
    /// Nothing arrived within the read time bound.
    ReadTimeout,
    /// Reading failed.
    ReadFailed { cause: String },
    /// The probe request could not be written.
    WriteFailed { cause: String },
    /// The probe connection could not be opened.
    ConnectFailed { cause: String },
}

/// The largest number of bytes read from the probe connection.
pub const READ_LIMIT: usize = 1024;

/// The largest number of reply bytes decoded into a preview.
pub const TEXT_PREVIEW_LEN: usize = 100;

/// The largest number of reply bytes listed in a hexadecimal preview.
pub const BYTE_PREVIEW_LEN: usize = 20;

/// The literal probe request: for `https` targets the caller's extra header
/// text follows the host line; for plaintext targets `Connection: close` does.
pub open spec fn probe_request(host: Seq<char>, extra_headers: Seq<char>, https: bool) -> Seq<char> {
    if https {
        "GET / HTTP/1.1\r\nHost: "@ + host + "\r\n"@ + extra_headers + "\r\n\r\n"@
    } else {
        "GET / HTTP/1.1\r\nHost: "@ + host + "\r\nConnection: close\r\n\r\n"@
    }
}

/// Builds the probe request.
pub fn build_probe_request(host: &str, extra_headers: &str, https: bool) -> (r: String)
    ensures
        r@ == probe_request(host@, extra_headers@, https),
{
    let mut t = Trace::new();
    t.push("GET / HTTP/1.1\r\nHost: ");
    t.push(host);
    if https {
        t.push("\r\n");
        t.push(extra_headers);
        t.push("\r\n\r\n");
    } else {
        t.push("\r\nConnection: close\r\n\r\n");
    }
    t.to_text()
}

/// What `String::from_utf8_lossy` makes of a byte sequence.
pub uninterp spec fn utf8_lossy(b: Seq<u8>) -> Seq<char>;

/// Relies on `String::from_utf8_lossy`: the decoded text depends on the bytes
/// alone.
#[verifier::external_body]
fn decode_lossy(b: &[u8]) -> (r: String)
    ensures
        r@ == utf8_lossy(b@),
{
    String::from_utf8_lossy(b).into_owned()
}

/// The reply begins with the TLS handshake content type.
pub open spec fn is_tls_start(b: Seq<u8>) -> bool {
    b.len() > 0 && b[0] == 0x16u8
}

/// The reply begins with the ASCII text `HTTP`.
pub open spec fn is_http_start(b: Seq<u8>) -> bool {
    b.len() >= 4 && b[0] == 0x48u8 && b[1] == 0x54u8 && b[2] == 0x54u8 && b[3] == 0x50u8
}

/// The first `min(n, b.len())` bytes of `b`.
pub open spec fn head(b: Seq<u8>, n: int) -> Seq<u8> {
    if b.len() <= n {
        b
    } else {
        b.subrange(0, n)
    }
}

/// The classification of the bytes read, in priority order: a TLS handshake
/// byte, then `HTTP`, then an empty read, then anything else.
pub open spec fn classification(b: Seq<u8>, r: SniffResult) -> bool {
    if is_tls_start(b) {
        r is TlsHandshake
    } else if is_http_start(b) {
        r matches SniffResult::PlainHttp { preview } && preview@ == utf8_lossy(head(b, TEXT_PREVIEW_LEN as int))
    } else if b.len() == 0 {
        r is ConnectionClosed
    } else {
        r matches SniffResult::Unrecognized { byte_preview } && byte_preview@ == hex_list(head(b, BYTE_PREVIEW_LEN as int))
    }
}

fn head_vec(b: &[u8], n: usize) -> (r: Vec<u8>)
    ensures
        r@ == head(b@, n as int),
{
    let k = if b.len() <= n { b.len() } else { n };
    let mut r: Vec<u8> = Vec::new();
    let mut i: usize = 0;
    while i < k
        invariant
            k <= b@.len(),
            k == if b@.len() <= n { b@.len() } else { n as nat },
            i <= k,
            r@ == b@.subrange(0, i as int),
        decreases k - i,
    {
        r.push(b[i]);
        i = i + 1;
    }
    assert(b@.subrange(0, b@.len() as int) =~= b@);
    r
}

/// Classifies the bytes that the server sent first.
pub fn classify_reply(b: &[u8]) -> (r: SniffResult)
    ensures
        classification(b@, r),
{
    if b.len() > 0 && b[0] == 0x16u8 {
        SniffResult::TlsHandshake
    } else if b.len() >= 4 && b[0] == 0x48u8 && b[1] == 0x54u8 && b[2] == 0x54u8 && b[3] == 0x50u8 {
        let h = head_vec(b, TEXT_PREVIEW_LEN);
        SniffResult::PlainHttp { preview: decode_lossy(h.as_slice()) }
    } else if b.len() == 0 {
        SniffResult::ConnectionClosed
    } else {
        let h = head_vec(b, BYTE_PREVIEW_LEN);
        SniffResult::Unrecognized { byte_preview: hex_preview(h.as_slice()) }
    }
}

/// The trace line for a sniffing result; the wording differs for `https`
/// and plaintext targets.
pub open spec fn sniff_line(r: SniffResult, https: bool, host: Seq<char>, port: u16) -> Seq<char> {
    match r {
        SniffResult::TlsHandshake => if https {
            "Server responded with TLS handshake\n"@
        } else {
            "Server sent TLS handshake on HTTP port\n"@
        },
        SniffResult::PlainHttp { preview } => if https {
            "Server responded with HTTP: "@ + preview@ + "\n"@
        } else {
            "Normal HTTP response: \n\n"@ + preview@ + "\n"@
        },
        SniffResult::Unrecognized { byte_preview } => if https {
            "Server responded with unknown data: "@ + byte_preview@ + "\n"@
        } else {
            "Unknown response: "@ + byte_preview@ + "\n"@
        },
        SniffResult::ConnectionClosed => if https {
            "Server closed connection immediately\n"@
        } else {
            "Server closed connection\n"@
        },
        SniffResult::ReadTimeout => if https {
            "Server didn't respond within timeout\n"@
        } else {
            "No response within timeout\n"@
        },
        SniffResult::ReadFailed { cause } => "Read error: "@ + cause@ + "\n"@,
        SniffResult::WriteFailed { cause } => "Failed to write request to "@ + endpoint(host, port) + ": "@ + cause@ + "\n"@,
        SniffResult::ConnectFailed { cause } => "Failed to connect to "@ + endpoint(host, port) + ": "@ + cause@ + "\n"@,
    }
}

/// The trace section of the sniffing phase.
pub open spec fn sniff_section(r: SniffResult, https: bool, host: Seq<char>, port: u16) -> Seq<char> {
    "Testing server response...\n"@ + sniff_line(r, https, host, port)
}

/// Appends the sniffing section for `r` to the trace.
pub fn write_sniff_section(trace: &mut Trace, r: &SniffResult, https: bool, host: &str, port: u16)
    ensures
        final(trace)@ == old(trace)@ + sniff_section(*r, https, host@, port),
{
    trace.push("Testing server response...\n");
    match r {
        SniffResult::TlsHandshake => if https {
            trace.push("Server responded with TLS handshake\n");
        } else {
            trace.push("Server sent TLS handshake on HTTP port\n");
        },
        SniffResult::PlainHttp { preview } => {
            if https {
                trace.push("Server responded with HTTP: ");
            } else {
                trace.push("Normal HTTP response: \n\n");
            }
            trace.push(preview.as_str());
            trace.push("\n");
        },
        SniffResult::Unrecognized { byte_preview } => {
            if https {
                trace.push("Server responded with unknown data: ");
            } else {
                trace.push("Unknown response: ");
            }
            trace.push(byte_preview.as_str());
            trace.push("\n");
        },
        SniffResult::ConnectionClosed => if https {
            trace.push("Server closed connection immediately\n");
        } else {
            trace.push("Server closed connection\n");
        },
        SniffResult::ReadTimeout => if https {
            trace.push("Server didn't respond within timeout\n");
        } else {
            trace.push("No response within timeout\n");
        },
        SniffResult::ReadFailed { cause } => {
            trace.push("Read error: ");
            trace.push(cause.as_str());
            trace.push("\n");
        },
        SniffResult::WriteFailed { cause } => {
            trace.push("Failed to write request to ");
            push_endpoint(trace, host, port);
            trace.push(": ");
            trace.push(cause.as_str());
            trace.push("\n");
        },
        SniffResult::ConnectFailed { cause } => {
            trace.push("Failed to connect to ");
            push_endpoint(trace, host, port);
            trace.push(": ");
            trace.push(cause.as_str());
            trace.push("\n");
        },
    }
    assert(final(trace)@ =~= old(trace)@ + sniff_section(*r, https, host@, port));
}

} // verus!
