//! Request parsing: the protocol grammar (method and version tokens), the
//! request-line parser, and the state machine that drives one complete byte
//! buffer through request line, headers and body.
//!
//! Parsing is one-shot and total: every byte buffer maps either to a
//! complete [`HttpRequest`] or to a rejection (`None`); no partial request
//! is ever exposed.

use vstd::prelude::*;
use vstd::string::StrSliceExecFns;

use crate::text::find_first;
use crate::text::find_char;
use crate::text::is_ws;
use crate::text::lemma_split_concat;
use crate::text::lemma_split_single;
use crate::text::lemma_trim_identity;
use crate::text::spec_split;
use crate::text::split_str;
use crate::text::spec_trim;
use crate::text::trim_str;
use crate::text::str_eq;

verus! {

/// The verb of an HTTP request.  `Invalid` is a first-class value standing
/// for a syntactically well-formed but unknown token.
#[derive(Clone, Copy, Debug, PartialEq, Eq, Structural)]
pub enum HttpRequestMethod {
    Connect,
    Delete,
    Get,
    Head,
    Invalid,
    Options,
    Patch,
    Post,
    Put,
    Trace,
}

/// The protocol version token of an HTTP request.
#[derive(Clone, Copy, Debug, PartialEq, Eq, Structural)]
pub enum HttpRequestProtocol {
    Invalid,
    TwoDotZero,
    OneDotZero,
    OneDotOne,
    ZeroDotNine,
}

/// The first line of a request: method, target and protocol version.
/// Built exactly once, by the parser; a value with `Invalid` method or
/// `Invalid` protocol is never produced.
#[derive(Debug)]
pub struct HttpRequestLine {
    pub method: HttpRequestMethod,
    pub protocol: HttpRequestProtocol,
    pub request_uri: String,
}

/// Method for a wire token; tokens are matched case-sensitively.
pub open spec fn spec_method_of(tok: Seq<char>) -> HttpRequestMethod {
    if tok == "CONNECT"@ { HttpRequestMethod::Connect }
    else if tok == "DELETE"@ { HttpRequestMethod::Delete }
    else if tok == "GET"@ { HttpRequestMethod::Get }
    else if tok == "HEAD"@ { HttpRequestMethod::Head }
    else if tok == "OPTIONS"@ { HttpRequestMethod::Options }
    else if tok == "PATCH"@ { HttpRequestMethod::Patch }
    else if tok == "PUT"@ { HttpRequestMethod::Put }
    else if tok == "POST"@ { HttpRequestMethod::Post }
    else if tok == "TRACE"@ { HttpRequestMethod::Trace }
    else { HttpRequestMethod::Invalid }
}

/// Protocol version for a wire token.
pub open spec fn spec_protocol_of(tok: Seq<char>) -> HttpRequestProtocol {
    if tok == "HTTP/0.9"@ { HttpRequestProtocol::ZeroDotNine }
    else if tok == "HTTP/1.0"@ { HttpRequestProtocol::OneDotZero }
    else if tok == "HTTP/1.1"@ { HttpRequestProtocol::OneDotOne }
    else if tok == "HTTP/2.0"@ { HttpRequestProtocol::TwoDotZero }
    else { HttpRequestProtocol::Invalid }
}

fn method_from_token(tok: &str) -> (r: HttpRequestMethod)
    ensures
        r == spec_method_of(tok@),
{
    if str_eq(tok, "CONNECT") { HttpRequestMethod::Connect }
    else if str_eq(tok, "DELETE") { HttpRequestMethod::Delete }
    else if str_eq(tok, "GET") { HttpRequestMethod::Get }
    else if str_eq(tok, "HEAD") { HttpRequestMethod::Head }
    else if str_eq(tok, "OPTIONS") { HttpRequestMethod::Options }
    else if str_eq(tok, "PATCH") { HttpRequestMethod::Patch }
    else if str_eq(tok, "PUT") { HttpRequestMethod::Put }
    else if str_eq(tok, "POST") { HttpRequestMethod::Post }
    else if str_eq(tok, "TRACE") { HttpRequestMethod::Trace }
    else { HttpRequestMethod::Invalid }
}

fn protocol_from_token(tok: &str) -> (r: HttpRequestProtocol)
    ensures
        r == spec_protocol_of(tok@),
{
    if str_eq(tok, "HTTP/0.9") { HttpRequestProtocol::ZeroDotNine }
    else if str_eq(tok, "HTTP/1.0") { HttpRequestProtocol::OneDotZero }
    else if str_eq(tok, "HTTP/1.1") { HttpRequestProtocol::OneDotOne }
    else if str_eq(tok, "HTTP/2.0") { HttpRequestProtocol::TwoDotZero }
    else { HttpRequestProtocol::Invalid }
}

/// Request line parsed from a token list: at least two tokens (method and
/// target); a third token, when present, must name a supported version,
/// and a missing third token defaults to HTTP/0.9.  Extra tokens beyond
/// the third are ignored.
pub open spec fn spec_parse_tokens(toks: Seq<Seq<char>>) -> Option<
    (HttpRequestMethod, Seq<char>, HttpRequestProtocol),
> {
    if toks.len() < 2 {
        None
    } else {
        let m = spec_method_of(toks[0]);
        let p = if toks.len() >= 3 {
            spec_protocol_of(toks[2])
        } else {
            HttpRequestProtocol::ZeroDotNine
        };
        if m == HttpRequestMethod::Invalid || p == HttpRequestProtocol::Invalid {
            None
        } else {
            Some((m, toks[1], p))
        }
    }
}

/// Request line parsed from one line of text: the line is trimmed of
/// surrounding whitespace, split on single spaces, and the tokens are
/// resolved by the grammar.
pub open spec fn spec_parse_request_line(line: Seq<char>) -> Option<
    (HttpRequestMethod, Seq<char>, HttpRequestProtocol),
> {
    spec_parse_tokens(spec_split(spec_trim(line), ' '))
}

impl HttpRequest {
    /// Parse one request line into method, target and version, or reject it.
    pub fn get_request_line(line: &str) -> (r: Option<HttpRequestLine>)
        ensures
            match r {
                Some(rl) => spec_parse_request_line(line@) == Some(
                    (rl.method, rl.request_uri@, rl.protocol),
                ),
                None => spec_parse_request_line(line@) is None,
            },
    {
        let trimmed = trim_str(line);
        let parts = split_str(trimmed, ' ');
        proof {
            assert(parts.deep_view().len() == parts@.len());
        }
        if parts.len() < 2 {
            return None;
        }
        let method = method_from_token(parts[0].as_str());
        let protocol = if parts.len() >= 3 {
            protocol_from_token(parts[2].as_str())
        } else {
            HttpRequestProtocol::ZeroDotNine
        };
        proof {
            assert(parts.deep_view()[0] == parts@[0]@);
            assert(parts.deep_view()[1] == parts@[1]@);
            if parts@.len() >= 3 {
                assert(parts.deep_view()[2] == parts@[2]@);
            }
        }
        if matches!(method, HttpRequestMethod::Invalid) {
            return None;
        }
        if matches!(protocol, HttpRequestProtocol::Invalid) {
            return None;
        }
        let request_uri = parts[1].clone();
        Some(HttpRequestLine { method, protocol, request_uri })
    }
}

/// The wire token of a supported method; the empty sequence for `Invalid`,
/// which has no token of its own.
pub open spec fn spec_method_token(m: HttpRequestMethod) -> Seq<char> {
    match m {
        HttpRequestMethod::Connect => "CONNECT"@,
        HttpRequestMethod::Delete => "DELETE"@,
        HttpRequestMethod::Get => "GET"@,
        HttpRequestMethod::Head => "HEAD"@,
        HttpRequestMethod::Options => "OPTIONS"@,
        HttpRequestMethod::Patch => "PATCH"@,
        HttpRequestMethod::Put => "PUT"@,
        HttpRequestMethod::Post => "POST"@,
        HttpRequestMethod::Trace => "TRACE"@,
        HttpRequestMethod::Invalid => Seq::<char>::empty(),
    }
}

/// The wire token of a supported protocol version; the empty sequence for
/// `Invalid`, which has no token of its own.
pub open spec fn spec_protocol_token(p: HttpRequestProtocol) -> Seq<char> {
    match p {
        HttpRequestProtocol::ZeroDotNine => "HTTP/0.9"@,
        HttpRequestProtocol::OneDotZero => "HTTP/1.0"@,
        HttpRequestProtocol::OneDotOne => "HTTP/1.1"@,
        HttpRequestProtocol::TwoDotZero => "HTTP/2.0"@,
        HttpRequestProtocol::Invalid => Seq::<char>::empty(),
    }
}

/// For every supported method token and every supported version token,
/// together with any target, the token list `[method, target, version]`
/// parses to a well-formed request line carrying exactly the
/// corresponding enumeration values.
pub proof fn lemma_supported_tokens_parse(
    m: HttpRequestMethod,
    p: HttpRequestProtocol,
    target: Seq<char>,
)
    requires
        m != HttpRequestMethod::Invalid,
        p != HttpRequestProtocol::Invalid,
    ensures
        spec_parse_tokens(seq![spec_method_token(m), target, spec_protocol_token(p)]) == Some(
            (m, target, p),
        ),
{
    broadcast use vstd::string::group_string_axioms;

    reveal_strlit("CONNECT");
    reveal_strlit("DELETE");
    reveal_strlit("GET");
    reveal_strlit("HEAD");
    reveal_strlit("OPTIONS");
    reveal_strlit("PATCH");
    reveal_strlit("PUT");
    reveal_strlit("POST");
    reveal_strlit("TRACE");
    reveal_strlit("HTTP/0.9");
    reveal_strlit("HTTP/1.0");
    reveal_strlit("HTTP/1.1");
    reveal_strlit("HTTP/2.0");
    let toks = seq![spec_method_token(m), target, spec_protocol_token(p)];
    assert("CONNECT"@.len() == 7 && "CONNECT"@[0] == 'C');
    assert("DELETE"@.len() == 6 && "DELETE"@[0] == 'D');
    assert("GET"@.len() == 3 && "GET"@[0] == 'G');
    assert("HEAD"@.len() == 4 && "HEAD"@[0] == 'H');
    assert("OPTIONS"@.len() == 7 && "OPTIONS"@[0] == 'O');
    assert("PATCH"@.len() == 5 && "PATCH"@[0] == 'P');
    assert("PUT"@.len() == 3 && "PUT"@[0] == 'P');
    assert("PUT"@[1] == 'U' && "GET"@[1] == 'E');
    assert("POST"@.len() == 4 && "POST"@[0] == 'P');
    assert("POST"@[1] == 'O' && "HEAD"@[1] == 'E');
    assert("TRACE"@.len() == 5 && "TRACE"@[0] == 'T');
    assert("HTTP/0.9"@[5] == '0' && "HTTP/0.9"@[7] == '9');
    assert("HTTP/1.0"@[5] == '1' && "HTTP/1.0"@[7] == '0');
    assert("HTTP/1.1"@[5] == '1' && "HTTP/1.1"@[7] == '1');
    assert("HTTP/2.0"@[5] == '2' && "HTTP/2.0"@[7] == '0');
    match m {
        HttpRequestMethod::Connect => assert(spec_method_of(toks[0]) == m),
        HttpRequestMethod::Delete => assert(spec_method_of(toks[0]) == m),
        HttpRequestMethod::Get => assert(spec_method_of(toks[0]) == m),
        HttpRequestMethod::Head => assert(spec_method_of(toks[0]) == m),
        HttpRequestMethod::Options => assert(spec_method_of(toks[0]) == m),
        HttpRequestMethod::Patch => assert(spec_method_of(toks[0]) == m),
        HttpRequestMethod::Put => assert(spec_method_of(toks[0]) == m),
        HttpRequestMethod::Post => assert(spec_method_of(toks[0]) == m),
        HttpRequestMethod::Trace => assert(spec_method_of(toks[0]) == m),
        HttpRequestMethod::Invalid => assert(false),
    }
    match p {
        HttpRequestProtocol::ZeroDotNine => assert(spec_protocol_of(toks[2]) == p),
        HttpRequestProtocol::OneDotZero => assert(spec_protocol_of(toks[2]) == p),
        HttpRequestProtocol::OneDotOne => assert(spec_protocol_of(toks[2]) == p),
        HttpRequestProtocol::TwoDotZero => assert(spec_protocol_of(toks[2]) == p),
        HttpRequestProtocol::Invalid => assert(false),
    }
}

/// For all nine supported method tokens and all four supported version
/// tokens, together with any nonempty whitespace-free target, the line
/// `<method> <target> <version>` parses to a well-formed request line
/// carrying exactly the corresponding enumeration values.
pub proof fn lemma_supported_line_parses(
    m: HttpRequestMethod,
    p: HttpRequestProtocol,
    target: Seq<char>,
)
    requires
        m != HttpRequestMethod::Invalid,
        p != HttpRequestProtocol::Invalid,
        target.len() > 0,
        forall|i: int| 0 <= i < target.len() ==> !is_ws(target[i]),
    ensures
        spec_parse_request_line(
            spec_method_token(m) + seq![' '] + target + seq![' '] + spec_protocol_token(p),
        ) == Some((m, target, p)),
{
    broadcast use vstd::string::group_string_axioms;

    reveal_strlit("CONNECT");
    reveal_strlit("DELETE");
    reveal_strlit("GET");
    reveal_strlit("HEAD");
    reveal_strlit("OPTIONS");
    reveal_strlit("PATCH");
    reveal_strlit("PUT");
    reveal_strlit("POST");
    reveal_strlit("TRACE");
    reveal_strlit("HTTP/0.9");
    reveal_strlit("HTTP/1.0");
    reveal_strlit("HTTP/1.1");
    reveal_strlit("HTTP/2.0");
    let mt = spec_method_token(m);
    let pt = spec_protocol_token(p);
    let line = mt + seq![' '] + target + seq![' '] + pt;
    match m {
        HttpRequestMethod::Invalid => assert(false),
        _ => assert(mt.len() > 0 && forall|i: int| 0 <= i < mt.len() ==> !is_ws(mt[i])),
    }
    match p {
        HttpRequestProtocol::Invalid => assert(false),
        _ => assert(pt.len() > 0 && forall|i: int| 0 <= i < pt.len() ==> !is_ws(pt[i])),
    }
    assert(line[0] == mt[0]);
    assert(line[line.len() - 1] == pt[pt.len() - 1]);
    lemma_trim_identity(line);
    let rest = target + seq![' '] + pt;
    assert(line =~= mt + seq![' '] + rest);
    lemma_split_concat(mt, rest, ' ');
    lemma_split_concat(target, pt, ' ');
    lemma_split_single(pt, ' ');
    assert(spec_split(line, ' ') =~= seq![mt, target, pt]);
    lemma_supported_tokens_parse(m, p, target);
}

/// A line whose third space-separated token is not one of the four
/// supported version tokens never parses to a request line.
pub proof fn lemma_unknown_version_rejected(line: Seq<char>)
    requires
        ({
            let toks = spec_split(spec_trim(line), ' ');
            &&& toks.len() >= 3
            &&& toks[2] != "HTTP/0.9"@
            &&& toks[2] != "HTTP/1.0"@
            &&& toks[2] != "HTTP/1.1"@
            &&& toks[2] != "HTTP/2.0"@
        }),
    ensures
        spec_parse_request_line(line) is None,
{
}

/// A line with fewer than two space-separated tokens never parses to a
/// request line.
pub proof fn lemma_too_few_tokens_rejected(line: Seq<char>)
    requires
        spec_split(spec_trim(line), ' ').len() < 2,
    ensures
        spec_parse_request_line(line) is None,
{
}

/// A parsed request line is always well-formed: it never carries an
/// `Invalid` method or an `Invalid` protocol version.
pub proof fn lemma_parsed_line_well_formed(line: Seq<char>)
    ensures
        match spec_parse_request_line(line) {
            Some(rl) => rl.0 != HttpRequestMethod::Invalid && rl.2
                != HttpRequestProtocol::Invalid,
            None => true,
        },
{
}

/// Parsing is one-shot and deterministic: equal byte buffers always parse
/// to structurally equal results.
pub proof fn lemma_parse_deterministic(a: Seq<u8>, b: Seq<u8>)
    requires
        a == b,
    ensures
        spec_parse(a) == spec_parse(b),
{
}

/// A complete, well-formed request: the parsed request line, the header
/// mapping in wire order, the argument mappings (left empty by this core:
/// target decomposition is deferred to a higher layer) and the raw body.
#[derive(Debug)]
pub struct HttpRequest {
    pub request_line: HttpRequestLine,
    pub headers: Vec<(String, String)>,
    pub query_arguments: Vec<(String, String)>,
    pub form_arguments: Vec<(String, String)>,
    pub body: Vec<u8>,
}

/// Whether every byte is ASCII; only such buffers are parsed.
pub open spec fn all_ascii(b: Seq<u8>) -> bool {
    forall|i: int| 0 <= i < b.len() ==> b[i] < 128
}

/// The characters of an ASCII byte sequence.
pub open spec fn ascii_chars(b: Seq<u8>) -> Seq<char> {
    Seq::new(b.len(), |i: int| b[i] as char)
}

/// A header line split at its first `:` into trimmed name and value, or
/// nothing when the line holds no `:` (such lines are skipped, not fatal).
pub open spec fn spec_header_of(line: Seq<char>) -> Option<(Seq<char>, Seq<char>)> {
    let i = find_first(line, ':');
    if 0 <= i < line.len() {
        Some(
            (
                spec_trim(line.subrange(0, i)),
                spec_trim(line.subrange(i + 1, line.len() as int)),
            ),
        )
    } else {
        None
    }
}

/// The header section of the text after the request line: the parsed
/// headers in wire order, and the offset at which the body begins (just
/// after the blank separator line, or the end of input when no blank line
/// occurs).
pub open spec fn spec_headers(s: Seq<char>) -> (Seq<(Seq<char>, Seq<char>)>, int)
    decreases s.len(),
{
    if s.len() == 0 {
        (Seq::<(Seq<char>, Seq<char>)>::empty(), 0)
    } else {
        let eol = find_first(s, '\n');
        let line_end = if 0 <= eol < s.len() {
            eol
        } else {
            s.len() as int
        };
        let after = if 0 <= eol < s.len() {
            eol + 1
        } else {
            s.len() as int
        };
        let line = spec_trim(s.subrange(0, line_end));
        if line.len() == 0 {
            (Seq::<(Seq<char>, Seq<char>)>::empty(), after)
        } else {
            let rest = spec_headers(s.subrange(after, s.len() as int));
            let hdrs = match spec_header_of(line) {
                Some(h) => seq![h] + rest.0,
                None => rest.0,
            };
            (hdrs, after + rest.1)
        }
    }
}

/// The complete parse of one byte buffer: the request-line triple, the
/// headers in wire order, and the body bytes.  `None` when the buffer is
/// not ASCII or its first line is not a well-formed request line.
pub open spec fn spec_parse(b: Seq<u8>) -> Option<
    (
        (HttpRequestMethod, Seq<char>, HttpRequestProtocol),
        Seq<(Seq<char>, Seq<char>)>,
        Seq<u8>,
    ),
> {
    if !all_ascii(b) {
        None
    } else {
        let s = ascii_chars(b);
        let eol = find_first(s, '\n');
        let line_end = if 0 <= eol < s.len() {
            eol
        } else {
            s.len() as int
        };
        let after = if 0 <= eol < s.len() {
            eol + 1
        } else {
            s.len() as int
        };
        match spec_parse_request_line(s.subrange(0, line_end)) {
            None => None,
            Some(rl) => {
                let h = spec_headers(s.subrange(after, s.len() as int));
                Some((rl, h.0, b.subrange(after + h.1, b.len() as int)))
            },
        }
    }
}

/// Relies on core::str::from_utf8: a buffer of ASCII bytes is valid UTF-8
/// and decodes to exactly those characters; a buffer that is not valid
/// UTF-8 (in particular never an all-ASCII one) is refused.
#[verifier::external_body]
fn ascii_to_str(bytes: &[u8]) -> (r: Option<&str>)
    ensures
        match r {
            Some(s) => all_ascii(bytes@) ==> s@ == ascii_chars(bytes@),
            None => !all_ascii(bytes@),
        },
{
    core::str::from_utf8(bytes).ok()
}

fn parse_header_line(line: &str) -> (r: Option<(String, String)>)
    ensures
        match r {
            Some(h) => spec_header_of(line@) == Some((h.0@, h.1@)),
            None => spec_header_of(line@) is None,
        },
{
    let len = line.unicode_len();
    let i = find_char(line, ':');
    if i < len {
        let name = trim_str(line.substring_char(0, i)).to_owned();
        let value = trim_str(line.substring_char(i + 1, len)).to_owned();
        Some((name, value))
    } else {
        None
    }
}

fn parse_header_block(s: &str) -> (r: (Vec<(String, String)>, usize))
    ensures
        r.0.deep_view() == spec_headers(s@).0,
        r.1 == spec_headers(s@).1,
        r.1 <= s@.len(),
    decreases s@.len(),
{
    let len = s.unicode_len();
    if len == 0 {
        let hdrs: Vec<(String, String)> = Vec::new();
        proof {
            assert(hdrs.deep_view() =~= spec_headers(s@).0);
        }
        (hdrs, 0)
    } else {
        let eol = find_char(s, '\n');
        let line_end = if eol < len { eol } else { len };
        let after = if eol < len { eol + 1 } else { len };
        let line = trim_str(s.substring_char(0, line_end));
        if line.unicode_len() == 0 {
            let hdrs: Vec<(String, String)> = Vec::new();
            proof {
                assert(hdrs.deep_view() =~= spec_headers(s@).0);
            }
            (hdrs, after)
        } else {
            let rest = s.substring_char(after, len);
            let (mut hdrs, off) = parse_header_block(rest);
            match parse_header_line(line) {
                Some(h) => {
                    hdrs.insert(0, h);
                },
                None => {},
            }
            proof {
                assert(hdrs.deep_view() =~= spec_headers(s@).0);
            }
            (hdrs, after + off)
        }
    }
}

/// The value paired with the given header name, where the last write wins:
/// the latest entry with that name decides, earlier ones are shadowed.
pub open spec fn spec_header_lookup(
    hs: Seq<(Seq<char>, Seq<char>)>,
    name: Seq<char>,
) -> Option<Seq<char>>
    decreases hs.len(),
{
    if hs.len() == 0 {
        None
    } else if hs.last().0 == name {
        Some(hs.last().1)
    } else {
        spec_header_lookup(hs.drop_last(), name)
    }
}

impl HttpRequest {
    /// Value of the named header, if present; with duplicate names the
    /// last write wins.
    pub fn header_value(&self, name: &str) -> (r: Option<&String>)
        ensures
            match r {
                Some(v) => spec_header_lookup(self.headers.deep_view(), name@) == Some(v@),
                None => spec_header_lookup(self.headers.deep_view(), name@) is None,
            },
    {
        let ghost hv = self.headers.deep_view();
        let mut i: usize = self.headers.len();
        proof {
            assert(hv.len() == self.headers@.len());
            assert(hv.take(i as int) =~= hv);
        }
        while i > 0
            invariant
                i <= self.headers@.len(),
                hv == self.headers.deep_view(),
                hv.len() == self.headers@.len(),
                spec_header_lookup(hv, name@) == spec_header_lookup(hv.take(i as int), name@),
            decreases i,
        {
            i -= 1;
            proof {
                assert(hv[i as int] == (self.headers@[i as int].0@, self.headers@[i as int].1@));
                assert(hv.take(i + 1 as int).last() == hv[i as int]);
                assert(hv.take(i + 1 as int).drop_last() =~= hv.take(i as int));
            }
            if str_eq(self.headers[i].0.as_str(), name) {
                return Some(&self.headers[i].1);
            }
        }
        proof {
            assert(hv.take(0) =~= Seq::<(Seq<char>, Seq<char>)>::empty());
        }
        None
    }

    /// Parse one complete request buffer: request line, then headers up to
    /// the blank separator line, then the remaining bytes verbatim as the
    /// body.  A non-ASCII buffer or a malformed request line rejects the
    /// whole parse; malformed header lines are skipped.
    pub fn from_tcp_stream(request: &[u8]) -> (r: Option<HttpRequest>)
        ensures
            match r {
                Some(req) => {
                    &&& spec_parse(request@) == Some(
                        (
                            (
                                req.request_line.method,
                                req.request_line.request_uri@,
                                req.request_line.protocol,
                            ),
                            req.headers.deep_view(),
                            req.body@,
                        ),
                    )
                    &&& req.query_arguments@.len() == 0
                    &&& req.form_arguments@.len() == 0
                },
                None => spec_parse(request@) is None,
            },
    {
        let n = request.len();
        let mut k: usize = 0;
        while k < n
            invariant
                n == request@.len(),
                k <= n,
                forall|j: int| 0 <= j < k ==> request@[j] < 128,
            decreases n - k,
        {
            if *vstd::slice::slice_index_get(request, k) >= 128 {
                return None;
            }
            k += 1;
        }
        let s = match ascii_to_str(request) {
            Some(s) => s,
            None => {
                proof {
                    assert(false);
                }
                return None;
            },
        };
        let len = s.unicode_len();
        let eol = find_char(s, '\n');
        let line_end = if eol < len { eol } else { len };
        let after = if eol < len { eol + 1 } else { len };
        let line1 = s.substring_char(0, line_end);
        let rl = match Self::get_request_line(line1) {
            Some(rl) => rl,
            None => {
                return None;
            },
        };
        let rest = s.substring_char(after, len);
        let (headers, off) = parse_header_block(rest);
        let body_start = after + off;
        let mut body: Vec<u8> = Vec::new();
        let mut k2: usize = body_start;
        proof {
            assert(body@ =~= request@.subrange(body_start as int, body_start as int));
        }
        while k2 < n
            invariant
                n == request@.len(),
                body_start <= k2 <= n,
                body@ == request@.subrange(body_start as int, k2 as int),
            decreases n - k2,
        {
            body.push(*vstd::slice::slice_index_get(request, k2));
            proof {
                assert(body@ =~= request@.subrange(body_start as int, k2 + 1 as int));
            }
            k2 += 1;
        }
        Some(
            HttpRequest {
                request_line: rl,
                headers,
                query_arguments: Vec::new(),
                form_arguments: Vec::new(),
                body,
            },
        )
    }
}

} // verus!
