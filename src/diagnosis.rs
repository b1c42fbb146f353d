//! The diagnosis of one request as a state machine: normalize, probe, sniff,
//! then try each strategy in order. The caller performs each action that
//! `next_action` names and hands back what came of it.

use vstd::prelude::*;
use crate::attempt::{AttemptKind, AttemptOutcome, ExecutionAttempt, attempt_section, kind_of, render_status,
    status_text, write_attempt_section};
use crate::method::{Method, method_of};
use crate::probe::{ProbeOutcome, cause_label, probe_section, unreachable_message, unreachable_text,
    write_probe_section};
use crate::sniff::{SniffResult, build_probe_request, probe_request, sniff_section, write_sniff_section};
use crate::strategy::{ClientStrategy, strategy_order, strategy_sequence};
use crate::headers::{copy_pairs, header_pairs, pairs_view, parse_header_text};
use crate::text::decimal;
use crate::trace::Trace;
use crate::url::{InputError, Target, derive_target, https_scheme, is_blank, normalize_url, normalized, occurs_at, occurs_in,
    target_of};

verus! {

/// Where a diagnosis stands.
#[derive(Clone, Copy, Debug, PartialEq, Eq, Structural)]
pub enum Phase {
    /// The reachability probe is due.
    Probing,
    /// The protocol sniff is due.
    Sniffing,
    /// The next strategy is due.
    Executing,
    /// The result is there.
    Finished,
}

/// What the caller is asked to do next.
#[derive(Debug)]
pub enum Action {
    /// Resolve `host` and open a TCP connection to it.
    Probe { host: String, port: u16 },
    /// Open a fresh connection, write `request`, and read the first bytes.
    Sniff { host: String, port: u16, https: bool, request: String },
    /// Send the request, with the caller's headers and body, using the
    /// client of `strategy`.
    Attempt { strategy: ClientStrategy, method: Method, url: String, headers: Vec<(String, String)>, body: String },
    /// Nothing: the diagnosis is finished.
    Done,
}

/// The final artifact of a diagnosis. `url` is the normalized target URL.
/// When `error` is set, `body` holds the trace instead of a response body.
#[derive(Debug)]
pub struct DiagnosisResult {
    pub url: String,
    pub success: bool,
    pub status: String,
    pub headers: Vec<String>,
    pub body: String,
    pub error: Option<String>,
    pub trace: String,
}

/// The status shown when every strategy failed.
pub open spec fn all_failed_status() -> Seq<char> {
    "Failed"@
}

/// The error shown when every strategy failed.
pub open spec fn all_failed_error() -> Seq<char> {
    "All Attempts Failed"@
}

/// The opening section of the trace, describing the target.
pub open spec fn url_section(t: (Seq<char>, Seq<char>, u16, Seq<char>)) -> Seq<char> {
    "URL Analysis:\n  Host: "@ + t.1 + "\n  Port: "@ + decimal(t.2 as nat) + "\n  Scheme: "@ + t.0 + "\n\n"@
}

/// A failed result whose body is the trace.
pub open spec fn is_failure(r: DiagnosisResult, status: Seq<char>, error: Seq<char>, trace: Seq<char>) -> bool {
    &&& !r.success
    &&& r.status@ == status
    &&& r.headers@.len() == 0
    &&& r.body@ == trace
    &&& r.error matches Some(e) && e@ == error
    &&& r.trace@ == trace
}

/// One diagnosis run, owning everything it creates.
pub struct Diagnosis {
    method: Method,
    url: String,
    target: Target,
    extra_headers: String,
    headers: Vec<(String, String)>,
    body: String,
    trace: Trace,
    phase: Phase,
    attempts: Vec<ExecutionAttempt>,
    result: Option<DiagnosisResult>,
}

impl Diagnosis {
    /// The phase.
    pub closed spec fn phase(&self) -> Phase {
        self.phase
    }

    /// The trace written so far.
    pub closed spec fn trace_text(&self) -> Seq<char> {
        self.trace@
    }

    /// The attempts made so far, in order.
    pub closed spec fn attempts(&self) -> Seq<ExecutionAttempt> {
        self.attempts@
    }

    /// The method of the request.
    pub closed spec fn method(&self) -> Method {
        self.method
    }

    /// The normalized URL.
    pub closed spec fn url(&self) -> Seq<char> {
        self.url@
    }

    /// The target derived from the normalized URL.
    pub closed spec fn target(&self) -> (Seq<char>, Seq<char>, u16, Seq<char>) {
        self.target@
    }

    /// The caller's extra header text.
    pub closed spec fn extra_headers(&self) -> Seq<char> {
        self.extra_headers@
    }

    /// The headers of the request, as the caller's header text states them.
    pub closed spec fn header_list(&self) -> Seq<(Seq<char>, Seq<char>)> {
        pairs_view(self.headers@)
    }

    /// The body of the request.
    pub closed spec fn body_text(&self) -> Seq<char> {
        self.body@
    }

    /// The result, once there is one.
    pub closed spec fn outcome(&self) -> Option<DiagnosisResult> {
        self.result
    }

    /// The state is consistent: attempts follow the strategy order, none but
    /// the last succeeded, a success ends the run, and only a finished run has
    /// a result.
    pub closed spec fn wf(&self) -> bool {
        let a = self.attempts@;
        &&& a.len() <= 3
        &&& forall|i: int| 0 <= i < a.len() ==> (#[trigger] a[i]).strategy == strategy_sequence()[i]
        &&& forall|i: int| 0 <= i < a.len() - 1 ==> (#[trigger] a[i]).kind != AttemptKind::Succeeded
        &&& (self.phase is Probing || self.phase is Sniffing) ==> a.len() == 0
        &&& self.phase is Executing ==> a.len() < 3 && forall|i: int|
            0 <= i < a.len() ==> (#[trigger] a[i]).kind != AttemptKind::Succeeded
        &&& a.len() == 3 ==> self.phase is Finished
        &&& (self.phase is Finished <==> self.result is Some)
    }

    /// Starts a diagnosis: the URL must not be blank, the method must be one
    /// of the five, and the normalized URL must parse with a host. The trace
    /// opens with the target's host, port and scheme.
    pub fn start(method: &str, url: &str, extra_headers: &str, body: &str) -> (r: Result<Diagnosis, InputError>)
        ensures
            r matches Err(InputError::EmptyInput) <==> is_blank(url@),
            r matches Err(InputError::UnsupportedMethod { .. }) <==> !is_blank(url@) && method_of(method@) is None,
            r matches Err(InputError::UnsupportedMethod { method: m }) ==> m@ == method@,
            r matches Err(InputError::MalformedUrl { .. }) <==> !is_blank(url@) && method_of(method@) is Some
                && target_of(normalized(url@)) is None,
            r matches Ok(d) ==> {
                &&& !is_blank(url@)
                &&& method_of(method@) == Some(d.method())
                &&& d.url() == normalized(url@)
                &&& target_of(normalized(url@)) == Some(d.target())
                &&& d.extra_headers() == extra_headers@
                &&& d.header_list() == header_pairs(extra_headers@)
                &&& d.body_text() == body@
                &&& d.wf()
                &&& d.phase() is Probing
                &&& d.attempts().len() == 0
                &&& d.trace_text() == url_section(d.target())
                &&& d.outcome() is None
            },
    {
        let url = match normalize_url(url) {
            Ok(u) => u,
            Err(e) => return Err(e),
        };
        let method = match Method::parse(method) {
            Some(m) => m,
            None => return Err(InputError::UnsupportedMethod { method: String::from_str(method) }),
        };
        let target = match derive_target(url.as_str()) {
            Ok(t) => t,
            Err(e) => return Err(e),
        };
        let mut trace = Trace::new();
        trace.push("URL Analysis:\n  Host: ");
        trace.push(target.host.as_str());
        trace.push("\n  Port: ");
        trace.push_number(target.port as u64);
        trace.push("\n  Scheme: ");
        trace.push(target.scheme.as_str());
        trace.push("\n\n");
        assert(trace@ =~= url_section(target@));
        Ok(Diagnosis {
            method,
            url,
            target,
            extra_headers: String::from_str(extra_headers),
            headers: parse_header_text(extra_headers),
            body: String::from_str(body),
            trace,
            phase: Phase::Probing,
            attempts: Vec::new(),
            result: None,
        })
    }

    /// The normalized URL.
    pub fn normalized_url(&self) -> (r: &str)
        ensures
            r@ == self.url(),
    {
        self.url.as_str()
    }

    /// The target.
    pub fn target_ref(&self) -> (r: &Target)
        ensures
            r@ == self.target(),
    {
        &self.target
    }

    /// The method of the request.
    pub fn request_method(&self) -> (r: Method)
        ensures
            r == self.method(),
    {
        self.method
    }

    /// The trace written so far.
    pub fn trace(&self) -> (r: &str)
        ensures
            r@ == self.trace_text(),
    {
        self.trace.as_str()
    }

    /// The attempts made so far, in order.
    pub fn attempt_records(&self) -> (r: &Vec<ExecutionAttempt>)
        ensures
            r@ == self.attempts(),
    {
        &self.attempts
    }

    /// The phase of the run.
    pub fn current_phase(&self) -> (r: Phase)
        ensures
            r == self.phase(),
    {
        self.phase
    }

    /// The action due next.
    pub fn next_action(&self) -> (r: Action)
        requires
            self.wf(),
        ensures
            self.phase() is Probing ==> (r matches Action::Probe { host, port } && host@ == self.target().1 && port
                == self.target().2),
            self.phase() is Sniffing ==> (r matches Action::Sniff { host, port, https, request } && host@
                == self.target().1 && port == self.target().2 && https == (self.target().0 == https_scheme())
                && request@ == probe_request(self.target().1, self.extra_headers(), https)),
            self.phase() is Executing ==> (r matches Action::Attempt { strategy, method, url, headers, body }
                && strategy == strategy_sequence()[self.attempts().len() as int] && method == self.method() && url@
                == self.url() && pairs_view(headers@) == self.header_list() && body@ == self.body_text()),
            self.phase() is Finished ==> r is Done,
    {
        match self.phase {
            Phase::Probing => Action::Probe { host: self.target.host.clone(), port: self.target.port },
            Phase::Sniffing => {
                let https = self.target.is_https();
                let request = build_probe_request(self.target.host.as_str(), self.extra_headers.as_str(), https);
                Action::Sniff { host: self.target.host.clone(), port: self.target.port, https, request }
            },
            Phase::Executing => {
                let strategy = strategy_order()[self.attempts.len()];
                Action::Attempt {
                    strategy,
                    method: self.method,
                    url: self.url.clone(),
                    headers: copy_pairs(&self.headers),
                    body: self.body.clone(),
                }
            },
            Phase::Finished => Action::Done,
        }
    }

    /// Records the reachability outcome. An unreachable target ends the run
    /// with a failure before any strategy is tried.
    pub fn record_probe(&mut self, o: ProbeOutcome)
        requires
            old(self).wf(),
            old(self).phase() is Probing,
        ensures
            final(self).wf(),
            final(self).trace_text() == old(self).trace_text() + probe_section(o, old(self).target().1, old(self).target().2),
            final(self).attempts().len() == 0,
            final(self).method() == old(self).method(),
            final(self).url() == old(self).url(),
            final(self).target() == old(self).target(),
            final(self).extra_headers() == old(self).extra_headers(),
            final(self).header_list() == old(self).header_list(),
            final(self).body_text() == old(self).body_text(),
            o is Reachable ==> final(self).phase() is Sniffing,
            o matches ProbeOutcome::Unreachable { cause, .. } ==> final(self).phase() is Finished
                && (final(self).outcome() matches Some(res) && res.url@ == old(self).url() && is_failure(res, cause_label(cause),
                unreachable_message(old(self).target().1, old(self).target().2), final(self).trace_text())),
    {
        write_probe_section(&mut self.trace, &o, self.target.host.as_str(), self.target.port);
        match o {
            ProbeOutcome::Reachable { .. } => {
                self.phase = Phase::Sniffing;
            },
            ProbeOutcome::Unreachable { cause, .. } => {
                let text = self.trace.to_text();
                self.result = Some(DiagnosisResult {
                    url: self.url.clone(),
                    success: false,
                    status: String::from_str(cause.label()),
                    headers: Vec::new(),
                    body: self.trace.to_text(),
                    error: Some(unreachable_text(self.target.host.as_str(), self.target.port)),
                    trace: text,
                });
                self.phase = Phase::Finished;
            },
        }
    }

    /// Records what sniffing found; whatever it is, the strategies come next.
    pub fn record_sniff(&mut self, r: SniffResult)
        requires
            old(self).wf(),
            old(self).phase() is Sniffing,
        ensures
            final(self).wf(),
            final(self).trace_text() == old(self).trace_text() + sniff_section(r, old(self).target().0
                == https_scheme(), old(self).target().1, old(self).target().2),
            final(self).phase() is Executing,
            final(self).attempts().len() == 0,
            final(self).method() == old(self).method(),
            final(self).url() == old(self).url(),
            final(self).target() == old(self).target(),
            final(self).extra_headers() == old(self).extra_headers(),
            final(self).header_list() == old(self).header_list(),
            final(self).body_text() == old(self).body_text(),
    {
        let https = self.target.is_https();
        write_sniff_section(&mut self.trace, &r, https, self.target.host.as_str(), self.target.port);
        self.phase = Phase::Executing;
    }

    /// Records the outcome of the strategy due. A success ends the run with
    /// the response; a failure moves on to the next strategy, and after the
    /// last one ends the run with a failure whose body is the trace.
    pub fn record_attempt(&mut self, o: AttemptOutcome)
        requires
            old(self).wf(),
            old(self).phase() is Executing,
        ensures
            final(self).wf(),
            final(self).attempts() == old(self).attempts().push(ExecutionAttempt {
                strategy: strategy_sequence()[old(self).attempts().len() as int],
                kind: kind_of(o),
            }),
            final(self).trace_text() == old(self).trace_text() + attempt_section(
                strategy_sequence()[old(self).attempts().len() as int],
                old(self).method(),
                old(self).url(),
                o,
            ),
            final(self).method() == old(self).method(),
            final(self).url() == old(self).url(),
            final(self).target() == old(self).target(),
            final(self).extra_headers() == old(self).extra_headers(),
            final(self).header_list() == old(self).header_list(),
            final(self).body_text() == old(self).body_text(),
            o matches AttemptOutcome::Succeeded { status, headers, body } ==> final(self).phase() is Finished
                && (final(self).outcome() matches Some(res) && res.url@ == old(self).url() && res.success && res.status@ == status_text(status)
                && res.headers@ == headers@ && res.body@ == body@ && res.error is None && res.trace@
                == final(self).trace_text()),
            !(o is Succeeded) && old(self).attempts().len() == 2 ==> final(self).phase() is Finished
                && (final(self).outcome() matches Some(res) && res.url@ == old(self).url() && is_failure(res, all_failed_status(),
                all_failed_error(), final(self).trace_text())),
            !(o is Succeeded) && old(self).attempts().len() < 2 ==> final(self).phase() is Executing,
    {
        let strategy = strategy_order()[self.attempts.len()];
        write_attempt_section(&mut self.trace, strategy, self.method, self.url.as_str(), &o);
        let kind = o.kind();
        self.attempts.push(ExecutionAttempt { strategy, kind });
        match o {
            AttemptOutcome::Succeeded { status, headers, body } => {
                self.result = Some(DiagnosisResult {
                    url: self.url.clone(),
                    success: true,
                    status: render_status(status),
                    headers,
                    body,
                    error: None,
                    trace: self.trace.to_text(),
                });
                self.phase = Phase::Finished;
            },
            _ => {
                if self.attempts.len() == 3 {
                    let text = self.trace.to_text();
                    self.result = Some(DiagnosisResult {
                        url: self.url.clone(),
                        success: false,
                        status: String::from_str("Failed"),
                        headers: Vec::new(),
                        body: self.trace.to_text(),
                        error: Some(String::from_str("All Attempts Failed")),
                        trace: text,
                    });
                    self.phase = Phase::Finished;
                }
            },
        }
    }

    /// The result of a finished run.
    pub fn into_result(self) -> (r: Option<DiagnosisResult>)
        ensures
            r == self.outcome(),
    {
        self.result
    }
}

/// Strategies are always tried in the fixed order Standard, Permissive,
/// Legacy TLS: the i-th attempt of any run used the i-th strategy.
pub proof fn lemma_strategy_order(d: Diagnosis)
    requires
        d.wf(),
    ensures
        strategy_sequence() == seq![ClientStrategy::Standard, ClientStrategy::Permissive, ClientStrategy::LegacyTls],
        d.attempts().len() <= 3,
        forall|i: int| 0 <= i < d.attempts().len() ==> (#[trigger] d.attempts()[i]).strategy == strategy_sequence()[i],
{
}

/// A run stops at the first success: an attempt that succeeded is the last
/// one, and the run is finished, so no later strategy is ever tried. In
/// particular, when the first strategy succeeds it is the only attempt.
pub proof fn lemma_stops_at_first_success(d: Diagnosis, i: int)
    requires
        d.wf(),
        0 <= i < d.attempts().len(),
        d.attempts()[i].kind == AttemptKind::Succeeded,
    ensures
        i == d.attempts().len() - 1,
        d.phase() is Finished,
        i == 0 ==> d.attempts().len() == 1,
{
    assert(d.attempts()[i].kind == AttemptKind::Succeeded);
}

/// An unreachable target is reported in the trace with a `ReachabilityError`
/// line, whatever was written before.
pub proof fn lemma_unreachable_reported(before: Seq<char>, o: ProbeOutcome, host: Seq<char>, port: u16)
    requires
        o is Unreachable,
    ensures
        occurs_in(before + probe_section(o, host, port), "ReachabilityError"@),
{
    reveal_strlit("ReachabilityError: ");
    reveal_strlit("ReachabilityError");
    if let ProbeOutcome::Unreachable { cause, detail } = o {
        let head = before + cause_label(cause) + ": "@ + detail@ + "\n"@;
        let rest = "ReachabilityError: "@ + unreachable_message(host, port) + "\n"@;
        let all = before + probe_section(o, host, port);
        assert(all =~= head + rest);
        let k = head.len() as int;
        assert(all.subrange(k, k + 17) =~= "ReachabilityError"@);
        assert(occurs_at(all, "ReachabilityError"@, k));
    }
}

/// A run whose reachability probe failed is over before any strategy: it is
/// finished, so no further action is due and no attempt can be recorded, it
/// holds no attempt, its failure names the cause and says that no TCP
/// connection could be established, and its trace reports a
/// `ReachabilityError`. The facts required are what `record_probe` ensures
/// for an unreachable outcome.
pub proof fn lemma_unreachable_ends_run(d: Diagnosis, before: Seq<char>, o: ProbeOutcome)
    requires
        d.wf(),
        o is Unreachable,
        d.trace_text() == before + probe_section(o, d.target().1, d.target().2),
        d.attempts().len() == 0,
        d.phase() is Finished,
    ensures
        d.outcome() is Some,
        d.attempts().len() == 0,
        occurs_in(d.trace_text(), "ReachabilityError"@),
        !(d.phase() is Executing),
{
    lemma_unreachable_reported(before, o, d.target().1, d.target().2);
}

} // verus!
