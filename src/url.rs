//! Canonicalization of a user-supplied endpoint into an absolute URL, and the
//! target (scheme, host, port, path) derived from it.

use vstd::prelude::*;
use crate::text::{chars_of, push_chars, push_char};

verus! {

/// The loopback alias that is rewritten to a numeric address.
pub open spec fn loopback_alias() -> Seq<char> {
    seq!['l', 'o', 'c', 'a', 'l', 'h', 'o', 's', 't']
}

/// The numeric loopback address written in place of the alias.
pub open spec fn loopback_address() -> Seq<char> {
    seq!['1', '2', '7', '.', '0', '.', '0', '.', '1']
}

/// The scheme prefix put in front of an input that has none.
pub open spec fn http_prefix() -> Seq<char> {
    seq!['h', 't', 't', 'p', ':', '/', '/']
}

/// The prefix of an explicit secure scheme.
pub open spec fn https_prefix() -> Seq<char> {
    seq!['h', 't', 't', 'p', 's', ':', '/', '/']
}

/// `p` occurs in `s` starting at index `i`.
pub open spec fn occurs_at(s: Seq<char>, p: Seq<char>, i: int) -> bool {
    0 <= i && i + p.len() <= s.len() && s.subrange(i, i + p.len()) == p
}

/// `p` occurs somewhere in `s`.
pub open spec fn occurs_in(s: Seq<char>, p: Seq<char>) -> bool {
    exists|i: int| occurs_at(s, p, i)
}

/// Every occurrence of the loopback alias, scanned from the left, is replaced
/// by the numeric loopback address. Matching is exact and case-sensitive, and
/// it is a substring match: an alias inside a longer host name is rewritten too.
pub open spec fn replace_alias(s: Seq<char>) -> Seq<char>
    decreases s.len(),
{
    if s.len() == 0 {
        s
    } else if occurs_at(s, loopback_alias(), 0) {
        loopback_address() + replace_alias(s.subrange(9, s.len() as int))
    } else {
        seq![s[0]] + replace_alias(s.subrange(1, s.len() as int))
    }
}

/// `s` begins with `http://` or `https://`.
pub open spec fn has_http_scheme(s: Seq<char>) -> bool {
    occurs_at(s, http_prefix(), 0) || occurs_at(s, https_prefix(), 0)
}

/// White space that makes an input blank.
pub open spec fn is_blank_char(c: char) -> bool {
    c == ' ' || c == '\t' || c == '\n' || c == '\r'
}

/// `s` is empty or holds white space only.
pub open spec fn is_blank(s: Seq<char>) -> bool {
    forall|i: int| 0 <= i < s.len() ==> is_blank_char(#[trigger] s[i])
}

/// The normalized form of a non-blank input: the alias rewritten, then
/// `http://` put in front unless an HTTP scheme already begins the text.
pub open spec fn normalized(s: Seq<char>) -> Seq<char> {
    let r = replace_alias(s);
    if has_http_scheme(r) {
        r
    } else {
        http_prefix() + r
    }
}

/// A character of the loopback alias.
pub open spec fn is_alias_letter(c: char) -> bool {
    c == 'l' || c == 'o' || c == 'c' || c == 'a' || c == 'h' || c == 's' || c == 't'
}

/// Where the rewritten text starts with alias letters only, it starts as the
/// original text does.
proof fn lemma_letter_prefix_kept(t: Seq<char>, k: int)
    requires
        0 <= k <= replace_alias(t).len(),
        forall|j: int| 0 <= j < k ==> is_alias_letter(#[trigger] replace_alias(t)[j]),
    ensures
        k <= t.len(),
        t.subrange(0, k) == replace_alias(t).subrange(0, k),
    decreases t.len(),
{
    let r = replace_alias(t);
    if k == 0 {
        assert(t.subrange(0, 0) =~= r.subrange(0, 0));
    } else if t.len() == 0 {
    } else if occurs_at(t, loopback_alias(), 0) {
        assert(r[0] == '1');
    } else {
        let rest = t.subrange(1, t.len() as int);
        let rr = replace_alias(rest);
        assert(r == seq![t[0]] + rr);
        assert forall|j: int| 0 <= j < k - 1 implies is_alias_letter(#[trigger] rr[j]) by {
            assert(rr[j] == r[j + 1]);
        }
        lemma_letter_prefix_kept(rest, k - 1);
        assert forall|j: int| 0 <= j < k implies t.subrange(0, k)[j] == r.subrange(0, k)[j] by {
            if j > 0 {
                assert(t[j] == rest.subrange(0, k - 1)[j - 1]);
                assert(rr.subrange(0, k - 1)[j - 1] == r[j]);
            }
        }
        assert(t.subrange(0, k) =~= r.subrange(0, k));
    }
}

/// No alias survives the rewrite.
proof fn lemma_no_alias_left(s: Seq<char>)
    ensures
        !occurs_in(replace_alias(s), loopback_alias()),
    decreases s.len(),
{
    let a = loopback_alias();
    let r = replace_alias(s);
    if s.len() == 0 {
    } else if occurs_at(s, a, 0) {
        let rest = s.subrange(9, s.len() as int);
        let rr = replace_alias(rest);
        lemma_no_alias_left(rest);
        assert(r == loopback_address() + rr);
        assert forall|i: int| !occurs_at(r, a, i) by {
            if occurs_at(r, a, i) {
                if i < 9 {
                    assert(r.subrange(i, i + 9)[0] == r[i]);
                } else {
                    assert(r.subrange(i, i + 9) =~= rr.subrange(i - 9, i));
                    assert(occurs_at(rr, a, i - 9));
                }
            }
        }
    } else {
        let rest = s.subrange(1, s.len() as int);
        let rr = replace_alias(rest);
        lemma_no_alias_left(rest);
        assert(r == seq![s[0]] + rr);
        assert forall|i: int| !occurs_at(r, a, i) by {
            if occurs_at(r, a, i) {
                if i >= 1 {
                    assert(r.subrange(i, i + 9) =~= rr.subrange(i - 1, i + 8));
                    assert(occurs_at(rr, a, i - 1));
                } else {
                    assert forall|j: int| 0 <= j < 8 implies is_alias_letter(#[trigger] rr[j]) by {
                        assert(rr[j] == r.subrange(0, 9)[j + 1]);
                    }
                    lemma_letter_prefix_kept(rest, 8);
                    assert(s.subrange(0, 9) =~= r.subrange(0, 9)) by {
                        assert forall|j: int| 1 <= j < 9 implies s.subrange(0, 9)[j] == r.subrange(0, 9)[j] by {
                            assert(s[j] == rest.subrange(0, 8)[j - 1]);
                            assert(rr.subrange(0, 8)[j - 1] == r[j]);
                        }
                    }
                }
            }
        }
    }
}

/// Text without the alias is left as it is.
proof fn lemma_no_alias_unchanged(s: Seq<char>)
    requires
        !occurs_in(s, loopback_alias()),
    ensures
        replace_alias(s) == s,
    decreases s.len(),
{
    let a = loopback_alias();
    if s.len() > 0 {
        assert(!occurs_at(s, a, 0));
        let rest = s.subrange(1, s.len() as int);
        assert forall|i: int| !occurs_at(rest, a, i) by {
            if occurs_at(rest, a, i) {
                assert(s.subrange(i + 1, i + 10) =~= rest.subrange(i, i + 9));
                assert(occurs_at(s, a, i + 1));
            }
        }
        lemma_no_alias_unchanged(rest);
        assert(seq![s[0]] + rest =~= s);
    }
}

/// The alias rewrite touches exactly the literal, case-sensitive `localhost`:
/// text that does not hold it comes back unchanged, and none is left after it.
pub proof fn lemma_alias_rewrite_exact(s: Seq<char>)
    ensures
        !occurs_in(replace_alias(s), loopback_alias()),
        !occurs_in(s, loopback_alias()) ==> replace_alias(s) == s,
{
    lemma_no_alias_left(s);
    if !occurs_in(s, loopback_alias()) {
        lemma_no_alias_unchanged(s);
    }
}

/// A normalized URL always begins with an HTTP scheme; `http://` is put in
/// front exactly when the rewritten input has none, and then once.
pub proof fn lemma_scheme_added_once(s: Seq<char>)
    ensures
        has_http_scheme(normalized(s)),
        !has_http_scheme(replace_alias(s)) ==> normalized(s) == http_prefix() + replace_alias(s),
        has_http_scheme(replace_alias(s)) ==> normalized(s) == replace_alias(s),
{
    let r = replace_alias(s);
    if !has_http_scheme(r) {
        assert((http_prefix() + r).subrange(0, 7) =~= http_prefix());
    }
}

/// Normalizing a normalized URL changes nothing, and a normalized URL is
/// never blank.
pub proof fn lemma_normalize_idempotent(s: Seq<char>)
    ensures
        !is_blank(normalized(s)),
        normalized(normalized(s)) == normalized(s),
{
    let a = loopback_alias();
    let r = replace_alias(s);
    let n = normalized(s);
    lemma_scheme_added_once(s);
    lemma_no_alias_left(s);
    assert(n.subrange(0, 7)[0] == n[0]);
    assert(!is_blank_char(n[0]));
    if !has_http_scheme(r) {
        assert forall|i: int| !occurs_at(n, a, i) by {
            if occurs_at(n, a, i) {
                if i < 7 {
                    assert(n.subrange(i, i + 9)[0] == n[i]);
                    assert(n[i] == http_prefix()[i]);
                } else {
                    assert(n.subrange(i, i + 9) =~= r.subrange(i - 7, i + 2));
                    assert(occurs_at(r, a, i - 7));
                }
            }
        }
    }
    lemma_no_alias_unchanged(n);
}

/// Why an input cannot be diagnosed; no network activity follows any of them.
#[derive(Debug)]
pub enum InputError {
    /// The URL is empty or blank.
    EmptyInput,
    /// The normalized URL does not parse as an absolute URL with a host.
    MalformedUrl { detail: String },
    /// The method is not one of GET, POST, PUT, PATCH and DELETE.
    UnsupportedMethod { method: String },
}

/// The message that tells the user why an input was refused.
pub open spec fn input_error_message(e: InputError) -> Seq<char> {
    match e {
        InputError::EmptyInput => "URL is empty"@,
        InputError::MalformedUrl { detail } => "Malformed URL: "@ + detail@,
        InputError::UnsupportedMethod { .. } => "Invalid request type"@,
    }
}

impl InputError {
    /// The message of the error.
    pub fn message(&self) -> (r: String)
        ensures
            r@ == input_error_message(*self),
    {
        match self {
            InputError::EmptyInput => String::from_str("URL is empty"),
            InputError::MalformedUrl { detail } => {
                let mut r = String::from_str("Malformed URL: ");
                r.append(detail.as_str());
                r
            },
            InputError::UnsupportedMethod { .. } => String::from_str("Invalid request type"),
        }
    }
}

fn is_blank_char_exec(c: char) -> (r: bool)
    ensures
        r == is_blank_char(c),
{
    c == ' ' || c == '\t' || c == '\n' || c == '\r'
}

fn append_chars(out: &mut Vec<char>, add: &Vec<char>)
    ensures
        final(out)@ == old(out)@ + add@,
{
    let mut k: usize = 0;
    while k < add.len()
        invariant
            k <= add@.len(),
            out@ == old(out)@ + add@.subrange(0, k as int),
        decreases add@.len() - k,
    {
        out.push(add[k]);
        k = k + 1;
        assert(out@ =~= old(out)@ + add@.subrange(0, k as int));
    }
    assert(add@.subrange(0, add@.len() as int) =~= add@);
}

fn occurs_at_exec(s: &Vec<char>, p: &Vec<char>, i: usize) -> (r: bool)
    ensures
        r == occurs_at(s@, p@, i as int),
{
    if i > s.len() || p.len() > s.len() - i {
        return false;
    }
    let end = i + p.len();
    let mut j: usize = 0;
    while j < p.len()
        invariant
            end == i + p@.len(),
            i + p@.len() <= s@.len(),
            j <= p@.len(),
            forall|k: int| 0 <= k < j ==> s@[i + k] == p@[k],
        decreases p@.len() - j,
    {
        if s[i + j] != p[j] {
            assert(s@.subrange(i as int, i + p@.len())[j as int] != p@[j as int]);
            return false;
        }
        j = j + 1;
    }
    assert(s@.subrange(i as int, i + p@.len()) =~= p@);
    true
}

/// Normalizes a user-supplied endpoint: a blank input is refused, every
/// `localhost` becomes `127.0.0.1`, and `http://` is put in front when the
/// text does not begin with `http://` or `https://`.
pub fn normalize_url(input: &str) -> (r: Result<String, InputError>)
    ensures
        is_blank(input@) <==> r is Err,
        r matches Err(e) ==> e is EmptyInput,
        r matches Ok(u) ==> u@ == normalized(input@),
{
    let s = chars_of(input);
    let mut i: usize = 0;
    while i < s.len() && is_blank_char_exec(s[i])
        invariant
            s@ == input@,
            i <= s@.len(),
            forall|k: int| 0 <= k < i ==> is_blank_char(#[trigger] s@[k]),
        decreases s@.len() - i,
    {
        i = i + 1;
    }
    if i == s.len() {
        return Err(InputError::EmptyInput);
    }
    let alias: Vec<char> = vec!['l', 'o', 'c', 'a', 'l', 'h', 'o', 's', 't'];
    let address: Vec<char> = vec!['1', '2', '7', '.', '0', '.', '0', '.', '1'];
    assert(alias@ =~= loopback_alias());
    assert(address@ =~= loopback_address());
    let mut out: Vec<char> = Vec::new();
    let mut i: usize = 0;
    assert(s@.subrange(0, s@.len() as int) =~= s@);
    while i < s.len()
        invariant
            s@ == input@,
            alias@ == loopback_alias(),
            address@ == loopback_address(),
            i <= s@.len(),
            out@ + replace_alias(s@.subrange(i as int, s@.len() as int)) == replace_alias(s@),
        decreases s@.len() - i,
    {
        let ghost rest = s@.subrange(i as int, s@.len() as int);
        let m = occurs_at_exec(&s, &alias, i);
        if m {
            assert(rest.subrange(0, 9) =~= s@.subrange(i as int, i + 9));
            assert(rest.subrange(9, rest.len() as int) =~= s@.subrange(i + 9, s@.len() as int));
            append_chars(&mut out, &address);
            i = i + 9;
        } else {
            proof {
                if i + 9 <= s@.len() {
                    assert(rest.subrange(0, 9) =~= s@.subrange(i as int, i + 9));
                }
            }
            assert(rest.subrange(1, rest.len() as int) =~= s@.subrange(i + 1, s@.len() as int));
            out.push(s[i]);
            i = i + 1;
        }
    }
    let mut res = String::new();
    let http: Vec<char> = vec!['h', 't', 't', 'p', ':', '/', '/'];
    let https: Vec<char> = vec!['h', 't', 't', 'p', 's', ':', '/', '/'];
    assert(http@ =~= http_prefix());
    assert(https@ =~= https_prefix());
    if !(occurs_at_exec(&out, &http, 0) || occurs_at_exec(&out, &https, 0)) {
        push_chars(&mut res, &http);
    }
    push_chars(&mut res, &out);
    Ok(res)
}

/// What the url crate makes of a text: the scheme, the host, an explicit
/// port that differs from the scheme's default, the path and the query.
pub uninterp spec fn url_parse(s: Seq<char>) -> Option<(Seq<char>, Option<Seq<char>>, Option<u16>, Seq<char>, Option<Seq<char>>)>;

/// The view of an optional text.
pub open spec fn opt_view(o: Option<String>) -> Option<Seq<char>> {
    match o {
        Some(t) => Some(t@),
        None => None,
    }
}

/// The parts of a parsed URL, as plain values.
struct UrlParts {
    scheme: String,
    host: Option<String>,
    port: Option<u16>,
    path: String,
    query: Option<String>,
}

/// Relies on `reqwest::Url::parse` (the url crate's `Url`) and its accessors
/// `scheme`, `host_str`, `port`, `path` and `query`: the parts depend on the
/// text alone, and parsing fails exactly when `url_parse` has no value.
#[verifier::external_body]
fn parse_url(s: &str) -> (r: Result<UrlParts, String>)
    ensures
        r matches Ok(p) ==> url_parse(s@) == Some((p.scheme@, opt_view(p.host), p.port, p.path@, opt_view(p.query))),
        r is Err ==> url_parse(s@) is None,
{
    match reqwest::Url::parse(s) {
        Ok(u) => Ok(UrlParts {
            scheme: u.scheme().to_string(),
            host: u.host_str().map(String::from),
            port: u.port(),
            path: u.path().to_string(),
            query: u.query().map(String::from),
        }),
        Err(e) => Err(e.to_string()),
    }
}

/// The scheme that defaults to port 443.
pub open spec fn https_scheme() -> Seq<char> {
    seq!['h', 't', 't', 'p', 's']
}

/// The port used when the URL names none: 443 for `https`, 80 otherwise.
pub open spec fn default_port(scheme: Seq<char>) -> u16 {
    if scheme == https_scheme() {
        443
    } else {
        80
    }
}

/// The path, followed by `?` and the query when there is one.
pub open spec fn path_and_query(path: Seq<char>, query: Option<Seq<char>>) -> Seq<char> {
    match query {
        Some(q) => path.push('?') + q,
        None => path,
    }
}

/// The target of a normalized URL: scheme, host, port and path with query;
/// none when the URL does not parse or names no host.
pub open spec fn target_of(url: Seq<char>) -> Option<(Seq<char>, Seq<char>, u16, Seq<char>)> {
    match url_parse(url) {
        Some((scheme, Some(host), port, path, query)) => Some((
            scheme,
            host,
            match port {
                Some(p) => p,
                None => default_port(scheme),
            },
            path_and_query(path, query),
        )),
        _ => None,
    }
}

/// Where a request goes, derived once from the normalized URL.
#[derive(Debug)]
pub struct Target {
    pub scheme: String,
    pub host: String,
    pub port: u16,
    pub path: String,
}

impl View for Target {
    type V = (Seq<char>, Seq<char>, u16, Seq<char>);

    open spec fn view(&self) -> Self::V {
        (self.scheme@, self.host@, self.port, self.path@)
    }
}

fn is_https_scheme(scheme: &String) -> (r: bool)
    ensures
        r == (scheme@ == https_scheme()),
{
    let cs = chars_of(scheme.as_str());
    let h: Vec<char> = vec!['h', 't', 't', 'p', 's'];
    assert(h@ =~= https_scheme());
    if cs.len() == 5 && occurs_at_exec(&cs, &h, 0) {
        assert(cs@ =~= cs@.subrange(0, 5));
        true
    } else {
        proof {
            if cs@ == https_scheme() {
                assert(cs@.subrange(0, 5) =~= cs@);
            }
        }
        false
    }
}

impl Target {
    /// Whether the target speaks `https`.
    pub fn is_https(&self) -> (r: bool)
        ensures
            r == (self.scheme@ == https_scheme()),
    {
        is_https_scheme(&self.scheme)
    }
}

/// Derives the target of a normalized URL; a URL that does not parse, or
/// names no host, is refused as malformed.
pub fn derive_target(url: &str) -> (r: Result<Target, InputError>)
    ensures
        r matches Ok(t) ==> target_of(url@) == Some(t@),
        r matches Err(e) ==> target_of(url@) is None && e is MalformedUrl,
{
    match parse_url(url) {
        Err(detail) => Err(InputError::MalformedUrl { detail }),
        Ok(parts) => {
            let UrlParts { scheme, host, port, path, query } = parts;
            match host {
                None => Err(InputError::MalformedUrl { detail: String::from_str("URL has no host") }),
                Some(host) => {
                    let https = is_https_scheme(&scheme);
                    let port = match port {
                        Some(p) => p,
                        None => if https { 443 } else { 80 },
                    };
                    let mut full = path;
                    match query {
                        Some(q) => {
                            push_char(&mut full, '?');
                            full.append(q.as_str());
                        },
                        None => {},
                    }
                    Ok(Target { scheme, host, port, path: full })
                },
            }
        },
    }
}

} // verus!
