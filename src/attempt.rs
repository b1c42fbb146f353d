//! One execution attempt per strategy: what came of it, and how it reads in
//! the trace.

use vstd::prelude::*;
use crate::method::{Method, method_name};
use crate::strategy::{ClientStrategy, strategy_name};
use crate::text::decimal;
use crate::trace::Trace;
use crate::url::opt_view;

verus! {

/// What a transport error tells: its message, its category flags, an HTTP
/// status if one was still produced, and its chain of underlying causes from
/// outermost to innermost.
#[derive(Debug)]
pub struct TransportFailure {
    pub message: String,
    pub is_timeout: bool,
    pub is_connect: bool,
    pub is_request: bool,
    pub status: Option<u16>,
    pub causes: Vec<String>,
}

/// What came of trying one strategy.
#[derive(Debug)]
pub enum AttemptOutcome {
    /// The client of the strategy could not be constructed.
    ClientFailed { detail: String },
    /// The request could not be built.
    BuildFailed { detail: String },
    /// The request failed in transport.
    TransportFailed { failure: TransportFailure },
    /// A response arrived but its body could not be read.
    BodyFailed { status: u16, headers: Vec<String>, detail: String },
    /// A response arrived and its body was read.
    Succeeded { status: u16, headers: Vec<String>, body: String },
}

/// The kind of an attempt's outcome.
#[derive(Clone, Copy, Debug, PartialEq, Eq, Structural)]
pub enum AttemptKind {
    ClientFailed,
    BuildFailed,
    TransportFailed,
    BodyFailed,
    Succeeded,
}

/// The record of one attempt: the strategy tried and the kind of its outcome.
#[derive(Clone, Copy, Debug, PartialEq, Eq, Structural)]
pub struct ExecutionAttempt {
    pub strategy: ClientStrategy,
    pub kind: AttemptKind,
}

/// The kind of an outcome.
pub open spec fn kind_of(o: AttemptOutcome) -> AttemptKind {
    match o {
        AttemptOutcome::ClientFailed { .. } => AttemptKind::ClientFailed,
        AttemptOutcome::BuildFailed { .. } => AttemptKind::BuildFailed,
        AttemptOutcome::TransportFailed { .. } => AttemptKind::TransportFailed,
        AttemptOutcome::BodyFailed { .. } => AttemptKind::BodyFailed,
        AttemptOutcome::Succeeded { .. } => AttemptKind::Succeeded,
    }
}

impl AttemptOutcome {
    /// The kind of the outcome.
    pub fn kind(&self) -> (r: AttemptKind)
        ensures
            r == kind_of(*self),
    {
        match self {
            AttemptOutcome::ClientFailed { .. } => AttemptKind::ClientFailed,
            AttemptOutcome::BuildFailed { .. } => AttemptKind::BuildFailed,
            AttemptOutcome::TransportFailed { .. } => AttemptKind::TransportFailed,
            AttemptOutcome::BodyFailed { .. } => AttemptKind::BodyFailed,
            AttemptOutcome::Succeeded { .. } => AttemptKind::Succeeded,
        }
    }
}

/// The standardised reason phrase of an HTTP status code, if it has one.
pub uninterp spec fn canonical_reason(code: u16) -> Option<Seq<char>>;

/// Relies on `reqwest::StatusCode::from_u16` and
/// `StatusCode::canonical_reason`: the phrase depends on the code alone.
#[verifier::external_body]
fn reason_phrase(code: u16) -> (r: Option<String>)
    ensures
        opt_view(r) == canonical_reason(code),
{
    match reqwest::StatusCode::from_u16(code) {
        Ok(c) => c.canonical_reason().map(String::from),
        Err(_) => None,
    }
}

/// The status as shown: the bare code for 200, otherwise the code followed by
/// a space and its reason phrase (empty when it has none).
pub open spec fn status_text(code: u16) -> Seq<char> {
    if code == 200 {
        decimal(200)
    } else {
        decimal(code as nat) + " "@ + match canonical_reason(code) {
            Some(p) => p,
            None => Seq::empty(),
        }
    }
}

/// Renders the status of a response.
pub fn render_status(code: u16) -> (r: String)
    ensures
        r@ == status_text(code),
{
    let mut t = Trace::new();
    t.push_number(code as u64);
    if code != 200 {
        t.push(" ");
        match reason_phrase(code) {
            Some(p) => t.push(p.as_str()),
            None => {},
        }
    }
    let r = t.to_text();
    assert(r@ =~= status_text(code));
    r
}

/// `true` or `false`.
pub open spec fn flag_text(b: bool) -> Seq<char> {
    if b {
        "true"@
    } else {
        "false"@
    }
}

/// A labelled flag on a line of its own.
pub open spec fn flag_line(label: Seq<char>, b: bool) -> Seq<char> {
    label + flag_text(b) + "\n"@
}

/// One numbered line per underlying cause, outermost first.
pub open spec fn cause_lines(causes: Seq<String>) -> Seq<char>
    decreases causes.len(),
{
    if causes.len() == 0 {
        Seq::empty()
    } else {
        cause_lines(causes.drop_last()) + "    Level "@ + decimal((causes.len() - 1) as nat) + ": "@
            + causes.last()@ + "\n"@
    }
}

/// Header lines of a response, each indented on a line of its own.
pub open spec fn header_block(headers: Seq<String>) -> Seq<char>
    decreases headers.len(),
{
    if headers.len() == 0 {
        Seq::empty()
    } else {
        header_block(headers.drop_last()) + "  "@ + headers.last()@ + "\n"@
    }
}

fn write_header_block(t: &mut Trace, headers: &Vec<String>)
    ensures
        final(t)@ == old(t)@ + header_block(headers@),
{
    let mut i: usize = 0;
    assert(old(t)@ =~= old(t)@ + header_block(headers@.subrange(0, 0)));
    while i < headers.len()
        invariant
            i <= headers@.len(),
            t@ == old(t)@ + header_block(headers@.subrange(0, i as int)),
        decreases headers@.len() - i,
    {
        t.push("  ");
        t.push(headers[i].as_str());
        t.push("\n");
        proof {
            let p = headers@.subrange(0, i + 1);
            assert(p.drop_last() =~= headers@.subrange(0, i as int));
            assert(t@ =~= old(t)@ + header_block(p));
        }
        i = i + 1;
    }
    assert(headers@.subrange(0, headers@.len() as int) =~= headers@);
}

/// The main message and the category flags of a transport failure.
pub open spec fn failure_flags(f: TransportFailure) -> Seq<char> {
    "  Error details:\n"@ + "    Main error: "@ + f.message@ + "\n"@ + flag_line("    Timeout: "@, f.is_timeout)
        + flag_line("    Connection Error: "@, f.is_connect) + flag_line("    Request Error: "@, f.is_request)
}

/// The status line of a transport failure.
pub open spec fn failure_status_line(status: Option<u16>) -> Seq<char> {
    match status {
        Some(c) => "    Status: Code "@ + decimal(c as nat) + "\n"@,
        None => "    Status Code: None\n"@,
    }
}

/// The detail block of a transport failure.
pub open spec fn failure_details(f: TransportFailure) -> Seq<char> {
    failure_flags(f) + failure_status_line(f.status) + cause_lines(f.causes@)
}

fn push_flag_line(t: &mut Trace, label: &str, b: bool)
    ensures
        final(t)@ == old(t)@ + flag_line(label@, b),
{
    t.push(label);
    if b {
        t.push("true");
    } else {
        t.push("false");
    }
    t.push("\n");
    assert(final(t)@ =~= old(t)@ + flag_line(label@, b));
}

fn write_failure_flags(t: &mut Trace, f: &TransportFailure)
    ensures
        final(t)@ == old(t)@ + failure_flags(*f),
{
    t.push("  Error details:\n");
    t.push("    Main error: ");
    t.push(f.message.as_str());
    t.push("\n");
    push_flag_line(t, "    Timeout: ", f.is_timeout);
    push_flag_line(t, "    Connection Error: ", f.is_connect);
    push_flag_line(t, "    Request Error: ", f.is_request);
    assert(final(t)@ =~= old(t)@ + failure_flags(*f));
}

fn write_failure_status_line(t: &mut Trace, status: Option<u16>)
    ensures
        final(t)@ == old(t)@ + failure_status_line(status),
{
    match status {
        Some(c) => {
            t.push("    Status: Code ");
            t.push_number(c as u64);
            t.push("\n");
        },
        None => t.push("    Status Code: None\n"),
    }
    assert(final(t)@ =~= old(t)@ + failure_status_line(status));
}

fn write_cause_lines(t: &mut Trace, causes: &Vec<String>)
    ensures
        final(t)@ == old(t)@ + cause_lines(causes@),
{
    let mut i: usize = 0;
    assert(old(t)@ =~= old(t)@ + cause_lines(causes@.subrange(0, 0)));
    while i < causes.len()
        invariant
            i <= causes@.len(),
            t@ == old(t)@ + cause_lines(causes@.subrange(0, i as int)),
        decreases causes@.len() - i,
    {
        let ghost before = t@;
        t.push("    Level ");
        t.push_number(i as u64);
        t.push(": ");
        t.push(causes[i].as_str());
        t.push("\n");
        proof {
            let p = causes@.subrange(0, i + 1);
            assert(p.drop_last() =~= causes@.subrange(0, i as int));
            assert(t@ =~= old(t)@ + cause_lines(p));
        }
        i = i + 1;
    }
    assert(causes@.subrange(0, causes@.len() as int) =~= causes@);
}

/// Appends the detail block of a transport failure to the trace.
pub fn write_failure_details(t: &mut Trace, f: &TransportFailure)
    ensures
        final(t)@ == old(t)@ + failure_details(*f),
{
    write_failure_flags(t, f);
    write_failure_status_line(t, f.status);
    write_cause_lines(t, &f.causes);
    assert(final(t)@ =~= old(t)@ + failure_details(*f));
}

/// The line that announces a request.
pub open spec fn sending_line(m: Method, url: Seq<char>, name: Seq<char>) -> Seq<char> {
    "Sending "@ + method_name(m) + " request to: "@ + url + " with "@ + name + "\n"@
}

/// What follows the announcement of a request, by outcome.
pub open spec fn response_part(name: Seq<char>, o: AttemptOutcome) -> Seq<char> {
    match o {
        AttemptOutcome::TransportFailed { failure } => "Failed with "@ + name + ": "@ + failure.message@ + "\n"@
            + failure_details(failure),
        AttemptOutcome::BodyFailed { status, headers, detail } => "Success with "@ + name + "!\n"@
            + "Response received: "@ + status_text(status) + "\n"@ + header_block(headers@)
            + "Unable to read response body: "@ + detail@ + "\n"@,
        AttemptOutcome::Succeeded { status, .. } => "Success with "@ + name + "!\n"@ + "Response received: "@
            + status_text(status) + "\n"@,
        _ => Seq::empty(),
    }
}

/// The trace section of one attempt.
pub open spec fn attempt_section(s: ClientStrategy, m: Method, url: Seq<char>, o: AttemptOutcome) -> Seq<char> {
    let name = strategy_name(s);
    "\nTrying "@ + name + "...\n"@ + match o {
        AttemptOutcome::ClientFailed { detail } => "Failed to create "@ + name + ": "@ + detail@ + "\n"@,
        AttemptOutcome::BuildFailed { detail } => "Failed to build request with "@ + name + ": "@ + detail@ + "\n"@,
        _ => sending_line(m, url, name) + response_part(name, o),
    }
}

fn write_sending_line(t: &mut Trace, m: Method, url: &str, name: &str)
    ensures
        final(t)@ == old(t)@ + sending_line(m, url@, name@),
{
    t.push("Sending ");
    t.push(m.as_str());
    t.push(" request to: ");
    t.push(url);
    t.push(" with ");
    t.push(name);
    t.push("\n");
    assert(final(t)@ =~= old(t)@ + sending_line(m, url@, name@));
}

fn write_response_part(t: &mut Trace, name: &str, o: &AttemptOutcome)
    ensures
        final(t)@ == old(t)@ + response_part(name@, *o),
{
    match o {
        AttemptOutcome::TransportFailed { failure } => {
            t.push("Failed with ");
            t.push(name);
            t.push(": ");
            t.push(failure.message.as_str());
            t.push("\n");
            write_failure_details(t, failure);
        },
        AttemptOutcome::BodyFailed { status, headers, detail } => {
            t.push("Success with ");
            t.push(name);
            t.push("!\n");
            t.push("Response received: ");
            let st = render_status(*status);
            t.push(st.as_str());
            t.push("\n");
            write_header_block(t, headers);
            t.push("Unable to read response body: ");
            t.push(detail.as_str());
            t.push("\n");
        },
        AttemptOutcome::Succeeded { status, .. } => {
            t.push("Success with ");
            t.push(name);
            t.push("!\n");
            t.push("Response received: ");
            let st = render_status(*status);
            t.push(st.as_str());
            t.push("\n");
        },
        _ => {},
    }
    assert(final(t)@ =~= old(t)@ + response_part(name@, *o));
}

/// Appends the trace section of one attempt.
pub fn write_attempt_section(t: &mut Trace, s: ClientStrategy, m: Method, url: &str, o: &AttemptOutcome)
    ensures
        final(t)@ == old(t)@ + attempt_section(s, m, url@, *o),
{
    let name = s.name();
    t.push("\nTrying ");
    t.push(name);
    t.push("...\n");
    match o {
        AttemptOutcome::ClientFailed { detail } => {
            t.push("Failed to create ");
            t.push(name);
            t.push(": ");
            t.push(detail.as_str());
            t.push("\n");
        },
        AttemptOutcome::BuildFailed { detail } => {
            t.push("Failed to build request with ");
            t.push(name);
            t.push(": ");
            t.push(detail.as_str());
            t.push("\n");
        },
        _ => {
            write_sending_line(t, m, url, name);
            write_response_part(t, name, o);
        },
    }
    assert(final(t)@ =~= old(t)@ + attempt_section(s, m, url@, *o));
}

} // verus!
