//! Response dispatch: an ordered list of pluggable response candidates,
//! queried in registration order; the first candidate whose match
//! predicate accepts the request produces the response, and a fixed
//! fallback response answers when none matches.

use vstd::prelude::*;
use vstd::string::StrSliceExecFns;
use vstd::string::StringExecFns;

verus! {

/// Whether `data` begins with the ASCII characters of `p`.
pub open spec fn spec_starts_with(data: Seq<u8>, p: Seq<char>) -> bool {
    data.len() >= p.len() && (forall|i: int| 0 <= i < p.len() ==> data[i] == p[i] as u8)
}

/// Whether the raw request bytes begin with the given ASCII prefix.
pub fn bytes_start_with(data: &[u8], p: &str) -> (r: bool)
    ensures
        r == spec_starts_with(data@, p@),
{
    let plen = p.unicode_len();
    if data.len() < plen {
        return false;
    }
    let mut i: usize = 0;
    while i < plen
        invariant
            plen == p@.len(),
            plen <= data@.len(),
            i <= plen,
            forall|j: int| 0 <= j < i ==> data@[j] == p@[j] as u8,
        decreases plen - i,
    {
        let c = p.get_char(i);
        let b = #[verifier::truncate] (c as u8);
        if *vstd::slice::slice_index_get(data, i) != b {
            return false;
        }
        i += 1;
    }
    true
}

/// The full response text for a status line, a content type and a body:
/// status line, header block, blank separator line, body.
pub open spec fn spec_build_response(
    status: Seq<char>,
    content_type: Seq<char>,
    body: Seq<char>,
) -> Seq<char> {
    "HTTP/1.1 "@ + status + "\r\n"@ + "Content-Type: "@ + content_type + "\r\n"@ + "\r\n"@
        + body
}

/// Build a complete HTTP response as text.
pub fn build_response(status: &str, content_type: &str, body: &str) -> (r: String)
    ensures
        r@ == spec_build_response(status@, content_type@, body@),
{
    let mut r = "HTTP/1.1 ".to_owned();
    r.append(status);
    r.append("\r\n");
    r.append("Content-Type: ");
    r.append(content_type);
    r.append("\r\n");
    r.append("\r\n");
    r.append(body);
    proof {
        assert(r@ =~= spec_build_response(status@, content_type@, body@));
    }
    r
}

/// A response candidate: one capability of the dispatch layer, able to
/// declare whether it matches a request and to produce the response text.
/// The match predicate is pure; a later candidate may be asked about the
/// same request when an earlier one declines.
pub trait Type {
    /// The candidate's match predicate over the raw request bytes.
    spec fn spec_matches(&self, request: Seq<u8>) -> bool;

    /// The response text the candidate produces for a request.
    spec fn spec_respond(&self, request: Seq<u8>) -> Seq<char>;

    /// Whether this candidate answers the given request.
    fn matches(&self, request: &[u8]) -> (r: bool)
        ensures
            r == self.spec_matches(request@),
    ;

    /// Produce the response for a request this candidate matches.
    fn respond(&self, request: &[u8]) -> (r: String)
        ensures
            r@ == self.spec_respond(request@),
    ;
}

/// File-backed response candidate.  The contents of its backing files are
/// handed in at construction — reading them from disk under one fixed
/// root is the calling layer's concern — so that responding is a pure
/// function of the request and the stored contents.
pub struct Filesystem {
    /// Content served with `200 OK` for the routes this candidate knows.
    pub index_content: String,
    /// Content served with `404 NOT FOUND` for every other route.
    pub not_found_content: String,
}

impl Filesystem {
    /// Whether the request is for one of the known routes.
    pub open spec fn spec_found(&self, request: Seq<u8>) -> bool {
        spec_starts_with(request, "GET / "@) || spec_starts_with(request, "GET /sleep "@)
    }

    /// The status-line text for a request.
    pub open spec fn spec_status(&self, request: Seq<u8>) -> Seq<char> {
        if self.spec_found(request) {
            "200 OK"@
        } else {
            "404 NOT FOUND"@
        }
    }

    /// The body served for a request.
    pub open spec fn spec_content(&self, request: Seq<u8>) -> Seq<char> {
        if self.spec_found(request) {
            self.index_content@
        } else {
            self.not_found_content@
        }
    }
}

impl Type for Filesystem {
    open spec fn spec_matches(&self, request: Seq<u8>) -> bool {
        true
    }

    open spec fn spec_respond(&self, request: Seq<u8>) -> Seq<char> {
        spec_build_response(self.spec_status(request), "text/html"@, self.spec_content(request))
    }

    fn matches(&self, request: &[u8]) -> (r: bool) {
        true
    }

    fn respond(&self, request: &[u8]) -> (r: String) {
        let found = bytes_start_with(request, "GET / ") || bytes_start_with(
            request,
            "GET /sleep ",
        );
        let status = if found {
            "200 OK"
        } else {
            "404 NOT FOUND"
        };
        let content = if found {
            self.index_content.as_str()
        } else {
            self.not_found_content.as_str()
        };
        build_response(status, "text/html", content)
    }
}

/// The deterministic fallback response produced when no candidate matches.
pub open spec fn spec_fallback() -> Seq<char> {
    "HTTP/1.1 404 NOT FOUND\r\n\r\n"@
}

/// The response of an ordered candidate list: the first matching
/// candidate's response, or the fallback when none matches.
pub open spec fn spec_dispatch<T: Type>(cands: Seq<T>, request: Seq<u8>) -> Seq<char>
    decreases cands.len(),
{
    if cands.len() == 0 {
        spec_fallback()
    } else if cands[0].spec_matches(request) {
        cands[0].spec_respond(request)
    } else {
        spec_dispatch(cands.drop_first(), request)
    }
}

/// Offer the request to each candidate in registration order; the first
/// whose predicate matches produces the response, and exactly one
/// candidate responds.  When none matches, the fixed fallback is returned.
pub fn dispatch<T: Type>(candidates: &Vec<T>, request: &[u8]) -> (r: String)
    ensures
        r@ == spec_dispatch(candidates@, request@),
{
    let n = candidates.len();
    let mut i: usize = 0;
    proof {
        assert(candidates@.skip(0) =~= candidates@);
    }
    while i < n
        invariant
            n == candidates@.len(),
            i <= n,
            spec_dispatch(candidates@, request@) == spec_dispatch(
                candidates@.skip(i as int),
                request@,
            ),
        decreases n - i,
    {
        proof {
            assert(candidates@.skip(i as int)[0] == candidates@[i as int]);
        }
        if candidates[i].matches(request) {
            return candidates[i].respond(request);
        }
        proof {
            assert(candidates@.skip(i as int).drop_first() =~= candidates@.skip(i + 1));
        }
        i += 1;
    }
    proof {
        assert(candidates@.skip(n as int) =~= Seq::<T>::empty());
    }
    "HTTP/1.1 404 NOT FOUND\r\n\r\n".to_owned()
}

/// Whether a blank-line separator (an empty line between two CRLF line
/// endings) occurs at index `i` of `r`.
pub open spec fn crlfcrlf_at(r: Seq<char>, i: int) -> bool {
    &&& 0 <= i
    &&& i + 4 <= r.len()
    &&& r[i] == '\r'
    &&& r[i + 1] == '\n'
    &&& r[i + 2] == '\r'
    &&& r[i + 3] == '\n'
}

/// Shape of every built response: it begins with a line
/// `HTTP/1.1 <status>\r\n`, exactly one blank-line separator stands
/// before the body, and the body follows that separator verbatim.
pub proof fn lemma_response_shape(status: Seq<char>, content_type: Seq<char>, body: Seq<char>)
    requires
        status.len() > 0,
        forall|i: int| 0 <= i < status.len() ==> status[i] != '\r' && status[i] != '\n',
        content_type.len() > 0,
        forall|i: int|
            0 <= i < content_type.len() ==> content_type[i] != '\r' && content_type[i] != '\n',
    ensures
        ({
            let r = spec_build_response(status, content_type, body);
            let sep = 25 + status.len() as int + content_type.len() as int;
            &&& r.len() == 29 + status.len() + content_type.len() + body.len()
            &&& r.subrange(0, 9) == "HTTP/1.1 "@
            &&& r.subrange(9, 9 + status.len() as int) == status
            &&& r.subrange(9 + status.len() as int, 11 + status.len() as int) == "\r\n"@
            &&& crlfcrlf_at(r, sep)
            &&& forall|j: int| 0 <= j < sep ==> !crlfcrlf_at(r, j)
            &&& r.subrange(sep + 4, r.len() as int) == body
        }),
{
    reveal_strlit("HTTP/1.1 ");
    reveal_strlit("Content-Type: ");
    reveal_strlit("\r\n");
    let r = spec_build_response(status, content_type, body);
    let sl = status.len() as int;
    let cl = content_type.len() as int;
    let sep = 25 + sl + cl;
    assert(r.len() == 29 + sl + cl + body.len());
    assert(r.subrange(0, 9) =~= "HTTP/1.1 "@);
    assert(r.subrange(9, 9 + sl) =~= status);
    assert(r.subrange(9 + sl, 11 + sl) =~= "\r\n"@);
    assert(crlfcrlf_at(r, sep));
    assert(r.subrange(sep + 4, r.len() as int) =~= body);
    assert forall|j: int| 0 <= j < sep implies !crlfcrlf_at(r, j) by {
        if crlfcrlf_at(r, j) {
            if j < 9 {
                assert(r[j] == "HTTP/1.1 "@[j]);
            } else if j < 9 + sl {
                assert(r[j] == status[j - 9]);
            } else if j == 9 + sl {
                assert(r[j + 2] == "Content-Type: "@[0]);
            } else if j == 10 + sl {
                assert(r[j] == '\n');
            } else if j < 25 + sl {
                assert(r[j] == "Content-Type: "@[j - 11 - sl]);
            } else {
                assert(r[j] == content_type[j - 25 - sl]);
            }
        }
    }
}

/// Every response the file-backed candidate builds begins with a line
/// `HTTP/1.1 <status>\r\n`, exactly one blank-line separator stands
/// before the body, and the served content follows it verbatim.
pub proof fn lemma_filesystem_response_shape(fs: Filesystem, request: Seq<u8>)
    ensures
        ({
            let r = fs.spec_respond(request);
            let status = fs.spec_status(request);
            let sep = 25 + status.len() as int + "text/html"@.len() as int;
            &&& r.subrange(0, 9) == "HTTP/1.1 "@
            &&& r.subrange(9, 9 + status.len() as int) == status
            &&& r.subrange(9 + status.len() as int, 11 + status.len() as int) == "\r\n"@
            &&& crlfcrlf_at(r, sep)
            &&& forall|j: int| 0 <= j < sep ==> !crlfcrlf_at(r, j)
            &&& r.subrange(sep + 4, r.len() as int) == fs.spec_content(request)
        }),
{
    broadcast use vstd::string::group_string_axioms;

    reveal_strlit("200 OK");
    reveal_strlit("404 NOT FOUND");
    reveal_strlit("text/html");
    let status = fs.spec_status(request);
    if fs.spec_found(request) {
        assert(status.len() == 6);
        assert(forall|i: int|
            0 <= i < status.len() ==> status[i] != '\r' && status[i] != '\n');
    } else {
        assert(status.len() == 13);
        assert(forall|i: int|
            0 <= i < status.len() ==> status[i] != '\r' && status[i] != '\n');
    }
    assert(forall|i: int|
        0 <= i < "text/html"@.len() ==> "text/html"@[i] != '\r' && "text/html"@[i] != '\n');
    lemma_response_shape(status, "text/html"@, fs.spec_content(request));
}

/// First-registered wins: when candidate `i` matches a request and no
/// earlier candidate does, the dispatched response is exactly candidate
/// `i`'s response — no other candidate responds.
pub proof fn lemma_dispatch_first_match<T: Type>(cands: Seq<T>, request: Seq<u8>, i: int)
    requires
        0 <= i < cands.len(),
        cands[i].spec_matches(request),
        forall|j: int| 0 <= j < i ==> !cands[j].spec_matches(request),
    ensures
        spec_dispatch(cands, request) == cands[i].spec_respond(request),
    decreases i,
{
    if i > 0 {
        let rest = cands.drop_first();
        assert forall|j: int| 0 <= j < i - 1 implies !rest[j].spec_matches(request) by {
            assert(rest[j] == cands[j + 1]);
        }
        assert(rest[i - 1] == cands[i]);
        lemma_dispatch_first_match(rest, request, i - 1);
    }
}

/// When no candidate matches, dispatch produces the fixed fallback
/// response — never nothing.
pub proof fn lemma_dispatch_fallback<T: Type>(cands: Seq<T>, request: Seq<u8>)
    requires
        forall|j: int| 0 <= j < cands.len() ==> !cands[j].spec_matches(request),
    ensures
        spec_dispatch(cands, request) == spec_fallback(),
    decreases cands.len(),
{
    if cands.len() > 0 {
        let rest = cands.drop_first();
        assert forall|j: int| 0 <= j < rest.len() implies !rest[j].spec_matches(request) by {
            assert(rest[j] == cands[j + 1]);
        }
        lemma_dispatch_fallback(rest, request);
    }
}

} // verus!
