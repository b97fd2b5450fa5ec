//! Random-access byte-range reads over two backends: a local file and an
//! HTTP resource reachable through range requests.
//!
//! This crate holds the verified core: the decision and bookkeeping logic of
//! the two adapters (the scratch-buffer state machine of the file backend,
//! and the probe/bounds/range logic of the HTTP backend), plus the dispatch
//! rule that picks a backend from a path-or-URL string. The surrounding
//! asynchronous plumbing (the worker pool, the HTTP client, the stream
//! wrapper) lives outside the verified library and drives this core.

use vstd::prelude::*;

pub mod file;
pub mod http;

verus! {

/// Parsed form of an absolute URL, from the `url` crate. Opaque here: it is
/// produced by `url::Url::parse` and carried through to the HTTP client.
#[verifier::external_type_specification]
#[verifier::external_body]
pub struct ExUrl(url::Url);

/// The `url` crate's parse error. Opaque here: carried through so the
/// caller sees the cause of a malformed URL.
#[verifier::external_type_specification]
#[verifier::external_body]
pub struct ExUrlParseError(url::ParseError);

/// Whether the `url` crate parses a string as an absolute URL. The outcome
/// depends on the characters alone.
pub uninterp spec fn spec_url_ok(s: Seq<char>) -> bool;

/// Relies on `url::Url::parse`: a pure parser whose success depends on the
/// input characters alone.
pub assume_specification[ url::Url::parse ](input: &str) -> (r: Result<url::Url, url::ParseError>)
    ensures
        r is Ok <==> spec_url_ok(input@),
;

/// Whether reads are coalesced by the buffering decorator. The decorator
/// itself, and its options, live outside the verified library; the
/// dispatcher forwards the options verbatim.
#[derive(Clone, Copy, Debug, PartialEq, Eq, Structural)]
pub enum Buffering {
    Unbuffered,
    Buffered,
}

impl Default for Buffering {
    /// Buffered, with the decorator's stock options.
    fn default() -> (b: Buffering)
        ensures
            b is Buffered,
    {
        Buffering::Buffered
    }
}

/// Options of the dispatch entry point: the HTTP adapter's request options,
/// and the buffering mode.
#[derive(Clone, Debug)]
pub struct OpenOptions {
    pub http: Option<http::Opts>,
    pub buffering: Buffering,
}

impl Default for OpenOptions {
    /// No custom HTTP options; buffered with stock options.
    fn default() -> (o: OpenOptions)
        ensures
            o.http is None,
            o.buffering is Buffered,
    {
        OpenOptions { http: None, buffering: Buffering::default() }
    }
}

/// The backend a path-or-URL string selects: a remote resource, with its
/// URL parsed, or a local file path.
#[derive(Debug)]
pub enum Backend {
    Http(url::Url),
    Local,
}

/// Why the dispatch decision itself can fail, before any backend is built.
#[derive(Debug)]
pub enum OpenError {
    /// The string selects the HTTP backend but is not a well-formed URL.
    MalformedUrl(url::ParseError),
}

/// Whether `s` starts with the characters of `p`.
pub open spec fn spec_has_prefix(s: Seq<char>, p: Seq<char>) -> bool {
    s.len() >= p.len() && s.subrange(0, p.len() as int) == p
}

/// Whether a path-or-URL string selects the HTTP backend: it starts with
/// `http:` or `https:`.
pub open spec fn spec_is_http_url(s: Seq<char>) -> bool {
    spec_has_prefix(s, "http:"@) || spec_has_prefix(s, "https:"@)
}

/// Whether `s` starts with the characters of `p`.
fn has_prefix(s: &str, p: &str) -> (b: bool)
    ensures
        b == spec_has_prefix(s@, p@),
{
    let s_len = s.unicode_len();
    let p_len = p.unicode_len();
    if s_len < p_len {
        return false;
    }
    let mut i: usize = 0;
    while i < p_len
        invariant
            i <= p_len,
            p_len == p@.len(),
            s@.len() >= p@.len(),
            forall|j: int| 0 <= j < i ==> s@[j] == p@[j],
        decreases p_len - i,
    {
        if s.get_char(i) != p.get_char(i) {
            return false;
        }
        i += 1;
    }
    proof {
        assert(s@.subrange(0, p@.len() as int) =~= p@);
    }
    true
}

/// Whether a path-or-URL string selects the HTTP backend.
pub fn is_http_url(path: &str) -> (b: bool)
    ensures
        b == spec_is_http_url(path@),
{
    has_prefix(path, "http:") || has_prefix(path, "https:")
}

/// The dispatch decision: a string starting with `http:` or `https:`
/// selects the remote backend and must parse as a URL — a malformed one
/// fails the whole open attempt, carrying the parse error — and any other
/// string names a local file path.
pub fn classify_path(path: &str) -> (r: Result<Backend, OpenError>)
    ensures
        !spec_is_http_url(path@) ==> (r matches Ok(b) && b is Local),
        (spec_is_http_url(path@) && spec_url_ok(path@)) ==> (r matches Ok(b) && b is Http),
        (spec_is_http_url(path@) && !spec_url_ok(path@)) ==> (r matches Err(e)
            && e is MalformedUrl),
{
    if is_http_url(path) {
        match url::Url::parse(path) {
            Ok(u) => Ok(Backend::Http(u)),
            Err(e) => Err(OpenError::MalformedUrl(e)),
        }
    } else {
        Ok(Backend::Local)
    }
}

} // verus!
