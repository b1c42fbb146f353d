//! Reachability: whether the target host resolves and accepts a raw TCP
//! connection, and how the outcome reads in the trace.

use vstd::prelude::*;
use crate::text::decimal;
use crate::trace::Trace;

verus! {

/// Why the target could not be reached.
#[derive(Clone, Copy, Debug, PartialEq, Eq, Structural)]
pub enum UnreachableCause {
    /// The host name did not resolve to any address.
    DnsFailure,
    /// The TCP connection did not complete within its time bound.
    ConnectTimeout,
    /// The peer refused the TCP connection.
    ConnectRefused,
    /// The TCP connection failed for another reason.
    ConnectFailed,
}

/// The outcome of the reachability probe.
#[derive(Debug)]
pub enum ProbeOutcome {
    /// A TCP connection to this address succeeded.
    Reachable { resolved_address: String },
    /// Resolution or connection failed; `detail` is the underlying error text.
    Unreachable { cause: UnreachableCause, detail: String },
}

/// The label that names a cause in the trace and in the result's status.
pub open spec fn cause_label(c: UnreachableCause) -> Seq<char> {
    match c {
        UnreachableCause::DnsFailure => "DNS Resolution Failed"@,
        UnreachableCause::ConnectTimeout => "TCP Connection Timed Out"@,
        UnreachableCause::ConnectRefused => "TCP Connection Refused"@,
        UnreachableCause::ConnectFailed => "TCP Connection Failed"@,
    }
}

impl UnreachableCause {
    /// The label of the cause.
    pub fn label(&self) -> (r: &'static str)
        ensures
            r@ == cause_label(*self),
    {
        match self {
            UnreachableCause::DnsFailure => "DNS Resolution Failed",
            UnreachableCause::ConnectTimeout => "TCP Connection Timed Out",
            UnreachableCause::ConnectRefused => "TCP Connection Refused",
            UnreachableCause::ConnectFailed => "TCP Connection Failed",
        }
    }
}

/// `host:port`.
pub open spec fn endpoint(host: Seq<char>, port: u16) -> Seq<char> {
    host + ":"@ + decimal(port as nat)
}

/// The one-line summary of an unreachable target.
pub open spec fn unreachable_message(host: Seq<char>, port: u16) -> Seq<char> {
    "Cannot establish TCP connection to "@ + endpoint(host, port)
}

/// The trace section of the reachability probe: the resolved address, or the
/// cause with the underlying error text followed by a summary line.
pub open spec fn probe_section(o: ProbeOutcome, host: Seq<char>, port: u16) -> Seq<char> {
    match o {
        ProbeOutcome::Reachable { resolved_address } => "Resolved DNS to: "@ + resolved_address@ + "\n"@,
        ProbeOutcome::Unreachable { cause, detail } => cause_label(cause) + ": "@ + detail@ + "\n"@
            + "ReachabilityError: "@ + unreachable_message(host, port) + "\n"@,
    }
}

/// Writes `host:port` to the trace.
pub fn push_endpoint(trace: &mut Trace, host: &str, port: u16)
    ensures
        final(trace)@ == old(trace)@ + endpoint(host@, port),
{
    trace.push(host);
    trace.push(":");
    trace.push_number(port as u64);
}

/// The one-line summary of an unreachable target, as text.
pub fn unreachable_text(host: &str, port: u16) -> (r: String)
    ensures
        r@ == unreachable_message(host@, port),
{
    let mut t = Trace::new();
    t.push("Cannot establish TCP connection to ");
    push_endpoint(&mut t, host, port);
    t.to_text()
}

/// Appends the reachability section for `o` to the trace.
pub fn write_probe_section(trace: &mut Trace, o: &ProbeOutcome, host: &str, port: u16)
    ensures
        final(trace)@ == old(trace)@ + probe_section(*o, host@, port),
{
    match o {
        ProbeOutcome::Reachable { resolved_address } => {
            trace.push("Resolved DNS to: ");
            trace.push(resolved_address.as_str());
            trace.push("\n");
        },
        ProbeOutcome::Unreachable { cause, detail } => {
            trace.push(cause.label());
            trace.push(": ");
            trace.push(detail.as_str());
            trace.push("\n");
            trace.push("ReachabilityError: ");
            trace.push("Cannot establish TCP connection to ");
            push_endpoint(trace, host, port);
            trace.push("\n");
        },
    }
    assert(final(trace)@ =~= old(trace)@ + probe_section(*o, host@, port));
}

} // verus!
