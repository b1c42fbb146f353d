//! The log of finished requests: each submission takes the next sequence
//! number, results are kept in sequence order, and are looked up by number.

use vstd::prelude::*;
use crate::diagnosis::DiagnosisResult;
use crate::url::opt_view;

verus! {

/// One finished request as the log keeps it.
#[derive(Debug)]
pub struct RequestResult {
    pub index: usize,
    pub req_headers: String,
    pub req_body: String,
    pub url: String,
    pub status: String,
    pub headers: Vec<String>,
    pub body: String,
    pub error: Option<String>,
}

/// Two results hold the same values.
pub open spec fn same_result(a: RequestResult, b: RequestResult) -> bool {
    &&& a.index == b.index
    &&& a.req_headers@ == b.req_headers@
    &&& a.req_body@ == b.req_body@
    &&& a.url@ == b.url@
    &&& a.status@ == b.status@
    &&& a.headers@ == b.headers@
    &&& a.body@ == b.body@
    &&& opt_view(a.error) == opt_view(b.error)
}

fn copy_lines(v: &Vec<String>) -> (r: Vec<String>)
    ensures
        r@ == v@,
{
    let mut r: Vec<String> = Vec::new();
    let mut i: usize = 0;
    while i < v.len()
        invariant
            i <= v@.len(),
            r@ == v@.subrange(0, i as int),
        decreases v@.len() - i,
    {
        r.push(v[i].clone());
        i = i + 1;
        assert(r@ =~= v@.subrange(0, i as int));
    }
    assert(v@.subrange(0, v@.len() as int) =~= v@);
    r
}

impl RequestResult {
    /// The log entry for a finished diagnosis: on failure the body is the
    /// trace and the error is set.
    pub fn from_diagnosis(index: usize, req_headers: String, req_body: String, url: String, r: DiagnosisResult) -> (e:
        RequestResult)
        ensures
            e.index == index,
            e.req_headers == req_headers,
            e.req_body == req_body,
            e.url == url,
            e.status == r.status,
            e.headers == r.headers,
            e.body == r.body,
            e.error == r.error,
    {
        RequestResult {
            index,
            req_headers,
            req_body,
            url,
            status: r.status,
            headers: r.headers,
            body: r.body,
            error: r.error,
        }
    }

    /// A copy holding the same values.
    pub fn duplicate(&self) -> (r: RequestResult)
        ensures
            same_result(r, *self),
    {
        RequestResult {
            index: self.index,
            req_headers: self.req_headers.clone(),
            req_body: self.req_body.clone(),
            url: self.url.clone(),
            status: self.status.clone(),
            headers: copy_lines(&self.headers),
            body: self.body.clone(),
            error: match &self.error {
                Some(e) => Some(e.clone()),
                None => None,
            },
        }
    }
}

/// Some entry of `s` has sequence number `index`.
pub open spec fn holds_index(s: Seq<RequestResult>, index: usize) -> bool {
    exists|i: int| 0 <= i < s.len() && (#[trigger] s[i]).index == index
}

/// The state shared between the interactive surface and the workers: the
/// log, the next sequence number, how many submissions are outstanding, and
/// the sequence number of the result on display.
pub struct App {
    responses: Vec<RequestResult>,
    next_index: usize,
    outstanding: usize,
    shown: Option<usize>,
}

impl App {
    /// The log, in increasing sequence order.
    pub closed spec fn entries(&self) -> Seq<RequestResult> {
        self.responses@
    }

    /// The sequence number that the next submission takes.
    pub closed spec fn next_number(&self) -> usize {
        self.next_index
    }

    /// How many submissions have not finished.
    pub closed spec fn pending(&self) -> usize {
        self.outstanding
    }

    /// The sequence number of the result on display.
    pub closed spec fn shown_index(&self) -> Option<usize> {
        self.shown
    }

    /// Sequence numbers are positive, strictly increasing along the log, and
    /// below the next one.
    pub closed spec fn wf(&self) -> bool {
        let s = self.responses@;
        &&& self.next_index >= 1
        &&& forall|i: int, j: int| 0 <= i < j < s.len() ==> (#[trigger] s[i]).index < (#[trigger] s[j]).index
        &&& forall|i: int| 0 <= i < s.len() ==> 1 <= (#[trigger] s[i]).index < self.next_index
        &&& self.shown matches Some(k) ==> holds_index(s, k)
    }

    /// An empty log whose first submission takes number 1.
    pub fn new() -> (r: App)
        ensures
            r.wf(),
            r.entries().len() == 0,
            r.next_number() == 1,
            r.pending() == 0,
            r.shown_index() is None,
    {
        App { responses: Vec::new(), next_index: 1, outstanding: 0, shown: None }
    }

    /// Registers a submission and hands out its sequence number.
    pub fn begin_request(&mut self) -> (r: usize)
        requires
            old(self).wf(),
            old(self).next_number() < usize::MAX,
            old(self).pending() < usize::MAX,
        ensures
            final(self).wf(),
            r == old(self).next_number(),
            final(self).next_number() == r + 1,
            final(self).pending() == old(self).pending() + 1,
            final(self).entries() == old(self).entries(),
            final(self).shown_index() == old(self).shown_index(),
    {
        let r = self.next_index;
        self.next_index = self.next_index + 1;
        self.outstanding = self.outstanding + 1;
        r
    }

    /// Whether another submission can be numbered and counted.
    pub fn can_begin(&self) -> (r: bool)
        ensures
            r == (self.next_number() < usize::MAX && self.pending() < usize::MAX),
    {
        self.next_index < usize::MAX && self.outstanding < usize::MAX
    }

    /// Whether `index` is a number handed out whose result is not filed yet.
    pub fn awaits(&self, index: usize) -> (r: bool)
        requires
            self.wf(),
        ensures
            r == (1 <= index < self.next_number() && !holds_index(self.entries(), index)),
    {
        if index < 1 || index >= self.next_index {
            return false;
        }
        let mut i: usize = 0;
        while i < self.responses.len()
            invariant
                i <= self.responses@.len(),
                forall|k: int| 0 <= k < i ==> (#[trigger] self.responses@[k]).index != index,
            decreases self.responses@.len() - i,
        {
            if self.responses[i].index == index {
                return false;
            }
            i = i + 1;
        }
        true
    }

    /// The sequence number of the result on display.
    pub fn shown(&self) -> (r: Option<usize>)
        ensures
            r == self.shown_index(),
    {
        self.shown
    }

    /// Whether a submission is outstanding.
    pub fn is_loading(&self) -> (r: bool)
        ensures
            r == (self.pending() > 0),
    {
        self.outstanding > 0
    }

    /// Files a finished result at its place in sequence order. It is shown
    /// unless a result with a later number is already on display.
    pub fn complete(&mut self, result: RequestResult)
        requires
            old(self).wf(),
            1 <= result.index < old(self).next_number(),
            !holds_index(old(self).entries(), result.index),
        ensures
            final(self).wf(),
            exists|p: int| 0 <= p <= old(self).entries().len() && final(self).entries() == old(self).entries().insert(p, result),
            final(self).next_number() == old(self).next_number(),
            final(self).pending() == if old(self).pending() > 0 { old(self).pending() - 1 } else { 0 },
            final(self).shown_index() == match old(self).shown_index() {
                Some(k) => if k < result.index { Some(result.index) } else { Some(k) },
                None => Some(result.index),
            },
    {
        let ghost before = self.responses@;
        let mut p: usize = 0;
        while p < self.responses.len() && self.responses[p].index < result.index
            invariant
                self.responses@ == before,
                p <= before.len(),
                forall|i: int| 0 <= i < p ==> (#[trigger] before[i]).index < result.index,
            decreases before.len() - p,
        {
            p = p + 1;
        }
        let idx = result.index;
        self.responses.insert(p, result);
        proof {
            let s = self.responses@;
            assert(s == before.insert(p as int, result));
            assert forall|i: int, j: int| 0 <= i < j < s.len() implies (#[trigger] s[i]).index < (#[trigger] s[j]).index by {
                if p < before.len() {
                    assert(before[p as int].index >= idx);
                    assert(before[p as int].index != idx);
                }
                if j < p {
                } else if j == p {
                } else if i < p {
                    assert(s[j] == before[j - 1]);
                } else if i == p {
                    assert(s[j] == before[j - 1]);
                    if j - 1 > p {
                        assert(before[p as int].index < before[j - 1].index);
                    }
                } else {
                    assert(s[i] == before[i - 1]);
                    assert(s[j] == before[j - 1]);
                }
            }
            assert(s[p as int].index == idx);
            if let Some(k) = self.shown {
                let w = choose|i: int| 0 <= i < before.len() && (#[trigger] before[i]).index == k;
                if w < p {
                    assert(s[w].index == k);
                } else {
                    assert(s[w + 1] == before[w]);
                }
            }
        }
        self.shown = match self.shown {
            Some(k) => if k < idx { Some(idx) } else { Some(k) },
            None => Some(idx),
        };
        if self.outstanding > 0 {
            self.outstanding = self.outstanding - 1;
        }
    }

    /// The logged result with sequence number `index`, if there is one.
    pub fn get_response_by_index(&self, index: usize) -> (r: Option<RequestResult>)
        requires
            self.wf(),
        ensures
            r is Some <==> holds_index(self.entries(), index),
            index == 0 || index >= self.next_number() ==> r is None,
            r matches Some(e) ==> e.index == index && exists|i: int|
                0 <= i < self.entries().len() && same_result(e, #[trigger] self.entries()[i]) && forall|j: int|
                0 <= j < self.entries().len() && j != i ==> (#[trigger] self.entries()[j]).index != index,
    {
        let mut i: usize = 0;
        while i < self.responses.len()
            invariant
                self.wf(),
                i <= self.responses@.len(),
                forall|k: int| 0 <= k < i ==> (#[trigger] self.responses@[k]).index != index,
            decreases self.responses@.len() - i,
        {
            if self.responses[i].index == index {
                let e = self.responses[i].duplicate();
                assert(same_result(e, self.responses@[i as int]));
                proof {
                    let s = self.responses@;
                    assert forall|j: int| 0 <= j < s.len() && j != i implies (#[trigger] s[j]).index != index by {
                        if j < i {
                            assert(s[j].index < s[i as int].index);
                        } else {
                            assert(s[i as int].index < s[j].index);
                        }
                    }
                }
                return Some(e);
            }
            i = i + 1;
        }
        None
    }
}

/// In a consistent log every sequence number is positive, below the next
/// one, and held by at most one entry: numbers increase strictly along the
/// log. The result on display is one of the logged ones.
pub proof fn lemma_log_numbers(a: App)
    requires
        a.wf(),
    ensures
        a.next_number() >= 1,
        forall|i: int, j: int|
            0 <= i < j < a.entries().len() ==> (#[trigger] a.entries()[i]).index < (#[trigger] a.entries()[j]).index,
        forall|i: int| 0 <= i < a.entries().len() ==> 1 <= (#[trigger] a.entries()[i]).index < a.next_number(),
        a.shown_index() matches Some(k) ==> holds_index(a.entries(), k),
{
}

/// Submissions get strictly increasing sequence numbers: a later submission
/// takes a larger number than an earlier one, whatever finished in between,
/// since finishing never moves the next number.
pub proof fn lemma_submissions_ordered(a0: App, a1: App, i: usize, a2: App, a3: App, j: usize)
    requires
        i == a0.next_number(),
        a1.next_number() == i + 1,
        a2.next_number() >= a1.next_number(),
        j == a2.next_number(),
        a3.next_number() == j + 1,
    ensures
        i < j,
        a3.next_number() > a1.next_number(),
{
}

} // verus!
