//! The HTTP-backed adapter's verified core.
//!
//! A resource is constructed from one probe request: an open-ended range
//! request from offset 0 whose declared content length fixes the resource's
//! size once and for all. Construction fails outright when the probe yields
//! no usable length. The probe's response body is retained and consumed by
//! the first read at offset 0; any other read issues a fresh GET with an
//! open-ended `range: bytes=<offset>-` header. An offset beyond the size is
//! rejected before any network call.
//!
//! The unverified surroundings own the HTTP client and the response bodies;
//! this module decides, for every call, whether to fail, reuse the probe
//! body, or fetch — and builds the exact header list of each request.

use vstd::prelude::*;

verus! {

/// The errors the HTTP adapter can fail with on its own, before any
/// transport error can occur.
#[derive(Clone, Copy, Debug, PartialEq, Eq, Structural)]
pub enum Error {
    /// The probe response carried no content-length header, or a zero one.
    ZeroLength,
    /// A reader was requested at an offset beyond the end of the resource.
    ReadAfterEnd { resource_end: u64, requested: u64 },
}

/// One HTTP header, as a plain name/value pair.
#[derive(Clone, Debug)]
pub struct Header {
    pub name: String,
    pub value: String,
}

/// Static request options: custom headers applied to every outbound
/// request, before the range header.
#[derive(Clone, Debug)]
pub struct Opts {
    pub headers: Option<Vec<Header>>,
}

impl Default for Opts {
    /// No custom headers.
    fn default() -> (o: Opts)
        ensures
            o.headers is None,
    {
        Opts { headers: None }
    }
}

/// The decision `get_reader_at` returns on success: either consume the
/// retained probe body, or issue a fresh request at the given offset.
#[derive(Clone, Copy, Debug, PartialEq, Eq, Structural)]
pub enum ReaderPlan {
    /// Serve the read from the probe response's un-consumed body.
    UseInitial,
    /// Issue a fresh GET with header `range: bytes=<offset>-`.
    Fetch { offset: u64 },
}

/// How a read starting at `offset` is served, given the fixed size and
/// whether the probe body is still available: the probe-body flag after the
/// call, and the decision. An offset beyond the size fails, carrying both
/// bounds, and changes nothing; the first in-range offset-0 read consumes
/// the probe body; every other in-range read fetches afresh.
pub open spec fn spec_reader_decision(size: u64, initial_available: bool, offset: u64) -> (
    bool,
    Result<ReaderPlan, Error>,
) {
    if offset > size {
        (initial_available, Err(Error::ReadAfterEnd { resource_end: size, requested: offset }))
    } else if offset == 0 && initial_available {
        (false, Ok(ReaderPlan::UseInitial))
    } else {
        (initial_available, Ok(ReaderPlan::Fetch { offset }))
    }
}

/// The digit character of one decimal digit.
pub open spec fn spec_digit(d: nat) -> char {
    if d == 0 {
        '0'
    } else if d == 1 {
        '1'
    } else if d == 2 {
        '2'
    } else if d == 3 {
        '3'
    } else if d == 4 {
        '4'
    } else if d == 5 {
        '5'
    } else if d == 6 {
        '6'
    } else if d == 7 {
        '7'
    } else if d == 8 {
        '8'
    } else {
        '9'
    }
}

/// The decimal notation of `n`, most significant digit first, with no
/// leading zero except for `n == 0` itself.
pub open spec fn spec_decimal(n: nat) -> Seq<char>
    decreases n,
{
    if n < 10 {
        seq![spec_digit(n)]
    } else {
        spec_decimal(n / 10).push(spec_digit(n % 10))
    }
}

/// The value of the range header requesting bytes from `offset` to the end
/// of the resource.
pub open spec fn spec_range_header(offset: u64) -> Seq<char> {
    "bytes="@ + spec_decimal(offset as nat) + "-"@
}

/// The one-character string of one decimal digit.
fn digit_str(d: u64) -> (s: &'static str)
    requires
        d < 10,
    ensures
        s@ == seq![spec_digit(d as nat)],
{
    let s: &'static str = if d == 0 {
        "0"
    } else if d == 1 {
        "1"
    } else if d == 2 {
        "2"
    } else if d == 3 {
        "3"
    } else if d == 4 {
        "4"
    } else if d == 5 {
        "5"
    } else if d == 6 {
        "6"
    } else if d == 7 {
        "7"
    } else if d == 8 {
        "8"
    } else {
        "9"
    };
    proof {
        reveal_strlit("0");
        reveal_strlit("1");
        reveal_strlit("2");
        reveal_strlit("3");
        reveal_strlit("4");
        reveal_strlit("5");
        reveal_strlit("6");
        reveal_strlit("7");
        reveal_strlit("8");
        reveal_strlit("9");
        assert(s@ =~= seq![spec_digit(d as nat)]);
    }
    s
}

/// Writes `n` in decimal notation.
pub fn decimal_string(n: u64) -> (s: String)
    ensures
        s@ == spec_decimal(n as nat),
    decreases n,
{
    if n < 10 {
        let mut s = String::new();
        s.append(digit_str(n));
        proof {
            assert(s@ =~= spec_decimal(n as nat));
        }
        s
    } else {
        let mut s = decimal_string(n / 10);
        s.append(digit_str(n % 10));
        proof {
            assert(s@ =~= spec_decimal(n as nat));
        }
        s
    }
}

/// Builds the value of the range header for a read starting at `offset`.
pub fn range_header_value(offset: u64) -> (s: String)
    ensures
        s@ == spec_range_header(offset),
{
    let mut s = String::from_str("bytes=");
    let digits = decimal_string(offset);
    s.append(digits.as_str());
    s.append("-");
    proof {
        assert(s@ =~= spec_range_header(offset));
    }
    s
}

/// The headers of the custom options, or the empty list where none were
/// given.
pub open spec fn spec_opt_headers(opts: Opts) -> Seq<Header> {
    match opts.headers {
        Some(v) => v@,
        None => Seq::empty(),
    }
}

/// Builds the header list of the ranged request for a read starting at
/// `offset`, under the given options: the custom headers, in their order,
/// then the open-ended range header. The probe request at construction is
/// the request this builds for offset 0.
pub fn request_headers(opts: &Opts, offset: u64) -> (h: Vec<Header>)
    ensures
        h@.len() == spec_opt_headers(*opts).len() + 1,
        forall|i: int|
            0 <= i < spec_opt_headers(*opts).len() ==> {
                &&& h@[i].name@ == spec_opt_headers(*opts)[i].name@
                &&& h@[i].value@ == spec_opt_headers(*opts)[i].value@
            },
        h@[h@.len() - 1].name@ == "range"@,
        h@[h@.len() - 1].value@ == spec_range_header(offset),
{
    let mut h: Vec<Header> = Vec::new();
    match &opts.headers {
        Some(custom) => {
            let mut i: usize = 0;
            while i < custom.len()
                invariant
                    i <= custom@.len(),
                    h@.len() == i,
                    spec_opt_headers(*opts) == custom@,
                    forall|j: int|
                        0 <= j < i ==> {
                            &&& h@[j].name@ == custom@[j].name@
                            &&& h@[j].value@ == custom@[j].value@
                        },
                decreases custom@.len() - i,
            {
                let hd = Header { name: custom[i].name.clone(), value: custom[i].value.clone() };
                h.push(hd);
                i += 1;
            }
        },
        None => {},
    }
    let range = Header { name: String::from_str("range"), value: range_header_value(offset) };
    h.push(range);
    h
}

/// The HTTP-backed adapter: the target URL, the static request options,
/// the size fixed by the probe, and whether the probe response's body is
/// still available for the first offset-0 read.
#[derive(Debug)]
pub struct Resource {
    url: String,
    opts: Opts,
    size: u64,
    initial_available: bool,
}

impl Resource {
    /// The size fixed at construction, never re-probed.
    pub closed spec fn spec_size(self) -> u64 {
        self.size
    }

    /// Whether the probe response's body has not yet been consumed.
    pub closed spec fn initial_available(self) -> bool {
        self.initial_available
    }

    /// The target URL.
    pub closed spec fn spec_url(self) -> Seq<char> {
        self.url@
    }

    /// The custom headers of the options, or the empty list where none
    /// were given.
    pub closed spec fn spec_custom_headers(self) -> Seq<Header> {
        spec_opt_headers(self.opts)
    }

    /// Builds the adapter from the probe's outcome, with default options.
    /// Fails with the zero-length error exactly when the probe declared no
    /// content length or a zero one.
    pub fn new(url: String, content_length: Option<u64>) -> (r: Result<Resource, Error>)
        ensures
            r is Err <==> (content_length is None || content_length == Some(0u64)),
            r is Err ==> r == Err::<Resource, Error>(Error::ZeroLength),
            r matches Ok(res) ==> Some(res.spec_size()) == content_length
                && res.spec_size() > 0
                && res.initial_available()
                && res.spec_url() == url@
                && res.spec_custom_headers() == Seq::<Header>::empty(),
    {
        Resource::with_opts(url, Opts { headers: None }, content_length)
    }

    /// Builds the adapter from the probe's outcome. The caller issued the
    /// probe — an open-ended range request from offset 0, with the headers
    /// `request_headers` gives for offset 0 — and passes the content
    /// length the response declared, if any. Fails with the zero-length
    /// error exactly when that length is absent or zero; on success the
    /// size is fixed and the probe body is marked available for the first
    /// offset-0 read.
    pub fn with_opts(url: String, opts: Opts, content_length: Option<u64>) -> (r: Result<
        Resource,
        Error,
    >)
        ensures
            r is Err <==> (content_length is None || content_length == Some(0u64)),
            r is Err ==> r == Err::<Resource, Error>(Error::ZeroLength),
            r matches Ok(res) ==> Some(res.spec_size()) == content_length
                && res.spec_size() > 0
                && res.initial_available()
                && res.spec_url() == url@
                && res.spec_custom_headers() == (match opts.headers {
                    Some(v) => v@,
                    None => Seq::<Header>::empty(),
                }),
    {
        let size: u64 = match content_length {
            Some(n) => n,
            None => 0,
        };
        if size == 0 {
            return Err(Error::ZeroLength);
        }
        Ok(Resource { url, opts, size, initial_available: true })
    }

    /// Returns the fixed size.
    pub fn size(&self) -> (s: u64)
        ensures
            s == self.spec_size(),
    {
        self.size
    }

    /// Decides how a read starting at `offset` is served. An offset beyond
    /// the size fails with the read-after-end error, carrying both bounds,
    /// before any network call; the first in-range read at offset 0
    /// consumes the retained probe body; every other in-range read issues
    /// one fresh ranged request.
    pub fn get_reader_at(&mut self, offset: u64) -> (r: Result<ReaderPlan, Error>)
        ensures
            final(self).spec_size() == old(self).spec_size(),
            final(self).spec_url() == old(self).spec_url(),
            final(self).spec_custom_headers() == old(self).spec_custom_headers(),
            (final(self).initial_available(), r) == spec_reader_decision(
                old(self).spec_size(),
                old(self).initial_available(),
                offset,
            ),
            offset > old(self).spec_size() ==> r == Err::<ReaderPlan, Error>(
                Error::ReadAfterEnd { resource_end: old(self).spec_size(), requested: offset },
            ) && *final(self) == *old(self),
            (offset <= old(self).spec_size() && offset == 0 && old(self).initial_available())
                ==> r == Ok::<ReaderPlan, Error>(ReaderPlan::UseInitial)
                && !final(self).initial_available(),
            (offset <= old(self).spec_size() && !(offset == 0 && old(self).initial_available()))
                ==> r == Ok::<ReaderPlan, Error>(ReaderPlan::Fetch { offset })
                && *final(self) == *old(self),
    {
        if offset > self.size {
            Err(Error::ReadAfterEnd { resource_end: self.size, requested: offset })
        } else if offset == 0 && self.initial_available {
            self.initial_available = false;
            Ok(ReaderPlan::UseInitial)
        } else {
            Ok(ReaderPlan::Fetch { offset })
        }
    }

    /// Builds the header list of the ranged request for a read starting at
    /// `offset`: the custom headers of the options, in their order, then
    /// the open-ended range header.
    pub fn request_headers(&self, offset: u64) -> (h: Vec<Header>)
        ensures
            h@.len() == self.spec_custom_headers().len() + 1,
            forall|i: int|
                0 <= i < self.spec_custom_headers().len() ==> {
                    &&& h@[i].name@ == self.spec_custom_headers()[i].name@
                    &&& h@[i].value@ == self.spec_custom_headers()[i].value@
                },
            h@[h@.len() - 1].name@ == "range"@,
            h@[h@.len() - 1].value@ == spec_range_header(offset),
    {
        request_headers(&self.opts, offset)
    }
}

/// Law: a reader requested beyond the resource's end fails with the
/// read-after-end error, carrying the resource size and the requested
/// offset, consumes nothing and triggers no fetch — whatever state the
/// probe body is in.
pub proof fn lemma_read_after_end_rejected(size: u64, initial_available: bool, offset: u64)
    requires
        offset > size,
    ensures
        spec_reader_decision(size, initial_available, offset) == (
            initial_available,
            Err::<ReaderPlan, Error>(
                Error::ReadAfterEnd { resource_end: size, requested: offset },
            ),
        ),
{
}

/// Law: the probe body is consumed exactly once. The first in-range read
/// at offset 0 is served from it; after that, a read at offset 0 on the
/// same instance — like any other in-range read — issues a fresh fetch.
pub proof fn lemma_initial_consumed_once(size: u64)
    ensures
        spec_reader_decision(size, true, 0) == (false, Ok::<ReaderPlan, Error>(
            ReaderPlan::UseInitial,
        )),
        spec_reader_decision(size, spec_reader_decision(size, true, 0).0, 0) == (
            false,
            Ok::<ReaderPlan, Error>(ReaderPlan::Fetch { offset: 0 }),
        ),
{
}

/// Law: an in-range read anywhere but at an un-consumed offset 0 fetches
/// at exactly the requested offset and leaves the probe body as it was.
pub proof fn lemma_fetch_at_requested_offset(size: u64, initial_available: bool, offset: u64)
    requires
        offset <= size,
        !(offset == 0 && initial_available),
    ensures
        spec_reader_decision(size, initial_available, offset) == (
            initial_available,
            Ok::<ReaderPlan, Error>(ReaderPlan::Fetch { offset }),
        ),
{
}

} // verus!
