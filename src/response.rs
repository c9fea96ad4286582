use vstd::prelude::*;
use vstd::string::StrSliceExecFns;
use vstd::string::StringExecFns;
use crate::request::Header;
use crate::request::headers_view;

verus! {

/// What the server said besides the body.
#[derive(Debug)]
pub struct Metadata {
    pub headers: Vec<Header>,
    pub status_text: String,
    pub url: String,
    pub status_code: u16,
}

/// The answer handed back for a request: exactly one of these.
#[derive(Debug)]
pub enum Response {
    GoodStatus(Metadata, Vec<u8>),
    BadStatus(Metadata, Vec<u8>),
    BadRequest(String),
    Timeout,
    NetworkError,
}

/// A response header as the client received it: its name, and its value as
/// raw bytes.
#[derive(Debug)]
pub struct RawHeader {
    pub name: String,
    pub value: Vec<u8>,
}

/// A response as the client received it. `body` is `None` when reading the
/// body failed.
#[derive(Debug)]
pub struct RawResponse {
    pub status: u16,
    pub headers: Vec<RawHeader>,
    pub body: Option<Vec<u8>>,
}

/// How an attempt to perform a request ended.
#[derive(Debug)]
pub enum Outcome {
    /// The HTTP client could not be set up.
    ClientUnavailable,
    /// The request could not be built; `message` says why.
    BuildFailed { message: String },
    /// Sending failed: by running out of time, because the request itself
    /// was faulty, or for another reason.
    SendFailed { timed_out: bool, malformed: bool, message: String },
    /// The server answered.
    Received(RawResponse),
}

/// The reason phrase that the HTTP standard registers for a status code.
pub uninterp spec fn reason_phrase(code: u16) -> Option<Seq<char>>;

/// The text that a sequence of bytes encodes, if they are valid UTF-8.
pub uninterp spec fn utf8_text(bytes: Seq<u8>) -> Option<Seq<char>>;

pub open spec fn opt_text(s: Option<String>) -> Option<Seq<char>> {
    match s {
        Some(t) => Some(t@),
        None => None,
    }
}

/// Relies on `StatusCode::from_u16` and `StatusCode::canonical_reason` of the
/// http crate (as re-exported by reqwest): the registered reason phrase of a
/// status code, and none for a code outside 100 to 999, which `from_u16`
/// refuses.
#[verifier::external_body]
fn canonical_reason(code: u16) -> (r: Option<String>)
    ensures
        opt_text(r) == reason_phrase(code),
        code < 100 || code > 999 ==> r.is_none(),
{
    match reqwest::StatusCode::from_u16(code) {
        Ok(status) => status.canonical_reason().map(String::from),
        Err(_) => None,
    }
}

/// Relies on `std::str::from_utf8`: the text the bytes encode, or `None` when
/// they are not valid UTF-8.
#[verifier::external_body]
fn decode_utf8(bytes: &Vec<u8>) -> (r: Option<String>)
    ensures
        opt_text(r) == utf8_text(bytes@),
{
    std::str::from_utf8(bytes.as_slice()).ok().map(String::from)
}

pub open spec fn digit(d: nat) -> char {
    seq!['0', '1', '2', '3', '4', '5', '6', '7', '8', '9'][d as int]
}

/// The decimal digits of `n`, most significant first.
pub open spec fn decimal(n: nat) -> Seq<char>
    decreases n,
{
    if n < 10 {
        seq![digit(n)]
    } else {
        decimal(n / 10).push(digit(n % 10))
    }
}

/// The status text of a code: its reason phrase, or its number written out.
pub open spec fn status_text_of(code: u16) -> Seq<char> {
    match reason_phrase(code) {
        Some(p) => p,
        None => decimal(code as nat),
    }
}

/// The text of a header value: its UTF-8 text, or empty when it has none.
pub open spec fn header_value_text(bytes: Seq<u8>) -> Seq<char> {
    match utf8_text(bytes) {
        Some(t) => t,
        None => Seq::empty(),
    }
}

/// Whether a status code is a success (200 to 299).
pub open spec fn is_success(code: u16) -> bool {
    200 <= code < 300
}

pub open spec fn raw_headers_view(hs: Seq<RawHeader>) -> Seq<(Seq<char>, Seq<char>)> {
    hs.map_values(|h: RawHeader| (h.name@, header_value_text(h.value@)))
}

pub open spec fn body_bytes(body: Option<Vec<u8>>) -> Seq<u8> {
    match body {
        Some(b) => b@,
        None => Seq::empty(),
    }
}

/// `m` describes `raw`, answered for a request to `url`.
pub open spec fn describes(m: Metadata, url: Seq<char>, raw: RawResponse) -> bool {
    &&& headers_view(m.headers@) == raw_headers_view(raw.headers@)
    &&& m.status_text@ == status_text_of(raw.status)
    &&& m.url@ == url
    &&& m.status_code == raw.status
}

/// `r` is the response owed for `outcome` of a request to `url`.
pub open spec fn translates(url: Seq<char>, outcome: Outcome, r: Response) -> bool {
    match outcome {
        Outcome::ClientUnavailable => r is NetworkError,
        Outcome::BuildFailed { message } => match r {
            Response::BadRequest(m) => m@ == message@,
            _ => false,
        },
        Outcome::SendFailed { timed_out, malformed, message } => if timed_out {
            r is Timeout
        } else if malformed {
            match r {
                Response::BadRequest(m) => m@ == message@,
                _ => false,
            }
        } else {
            r is NetworkError
        },
        Outcome::Received(raw) => match r {
            Response::GoodStatus(m, b) => is_success(raw.status) && describes(m, url, raw) && b@
                == body_bytes(raw.body),
            Response::BadStatus(m, b) => !is_success(raw.status) && describes(m, url, raw) && b@
                == body_bytes(raw.body),
            _ => false,
        },
    }
}

fn append_decimal(out: &mut String, n: u16)
    ensures
        final(out)@ == old(out)@ + decimal(n as nat),
    decreases n,
{
    if n >= 10 {
        append_decimal(out, n / 10);
    }
    let d = (n % 10) as usize;
    let digits = "0123456789";
    proof {
        reveal_strlit("0123456789");
    }
    let one = digits.substring_char(d, d + 1);
    assert(one@ =~= seq![digit(d as nat)]);
    out.append(one);
    proof {
        if n >= 10 {
            assert(decimal(n as nat) == decimal((n / 10) as nat).push(digit((n % 10) as nat)));
        }
    }
    assert(final(out)@ =~= old(out)@ + decimal(n as nat));
}

/// The status text for `code`, given its reason phrase if it has one: the
/// phrase, or else the code's decimal digits.
pub fn status_text(reason: Option<String>, code: u16) -> (r: String)
    ensures
        r@ == (match opt_text(reason) {
            Some(p) => p,
            None => decimal(code as nat),
        }),
{
    match reason {
        Some(p) => p,
        None => {
            let mut out = String::new();
            append_decimal(&mut out, code);
            assert(out@ =~= decimal(code as nat));
            out
        },
    }
}

/// The text of a header value, given its decoding: the decoded text, or an
/// empty string when the value was not valid text.
pub fn header_text(decoded: Option<String>) -> (r: String)
    ensures
        r@ == (match opt_text(decoded) {
            Some(t) => t,
            None => Seq::empty(),
        }),
{
    match decoded {
        Some(t) => t,
        None => String::new(),
    }
}

/// Translates the headers of a response, keeping their order.
fn translate_headers(raw: &Vec<RawHeader>) -> (r: Vec<Header>)
    ensures
        headers_view(r@) == raw_headers_view(raw@),
{
    let mut r: Vec<Header> = Vec::new();
    let mut i: usize = 0;
    while i < raw.len()
        invariant
            i <= raw@.len(),
            headers_view(r@) =~= raw_headers_view(raw@.take(i as int)),
        decreases raw@.len() - i,
    {
        let value = header_text(decode_utf8(&raw[i].value));
        let h = Header { name: raw[i].name.clone(), value };
        let ghost before = r@;
        r.push(h);
        assert(headers_view(r@) =~= headers_view(before).push((h.name@, h.value@)));
        assert(raw@.take(i as int + 1) =~= raw@.take(i as int).push(raw@[i as int]));
        i = i + 1;
    }
    assert(raw@.take(i as int) =~= raw@);
    r
}

/// Turns how a request to `url` ended into the response for the generated
/// program: a failed client setup or any other send failure is a
/// `NetworkError`, a build failure or a faulty request a `BadRequest` with
/// its message, a time-out a `Timeout`; an answer is `GoodStatus` for a
/// status from 200 to 299 and `BadStatus` otherwise, with its metadata and
/// its body (empty if the body could not be read).
pub fn translate(url: &String, outcome: Outcome) -> (r: Response)
    ensures
        translates(url@, outcome, r),
{
    match outcome {
        Outcome::ClientUnavailable => Response::NetworkError,
        Outcome::BuildFailed { message } => Response::BadRequest(message),
        Outcome::SendFailed { timed_out, malformed, message } => {
            if timed_out {
                Response::Timeout
            } else if malformed {
                Response::BadRequest(message)
            } else {
                Response::NetworkError
            }
        },
        Outcome::Received(raw) => {
            let headers = translate_headers(&raw.headers);
            let status_text = status_text(canonical_reason(raw.status), raw.status);
            let metadata = Metadata {
                headers,
                status_text,
                url: url.clone(),
                status_code: raw.status,
            };
            let body = match raw.body {
                Some(b) => b,
                None => Vec::new(),
            };
            if 200 <= raw.status && raw.status < 300 {
                Response::GoodStatus(metadata, body)
            } else {
                Response::BadStatus(metadata, body)
            }
        },
    }
}

/// An answer with a success status becomes `GoodStatus`, carrying the status
/// code and exactly the body the server sent.
pub proof fn lemma_success_yields_good_status(url: Seq<char>, raw: RawResponse, r: Response)
    requires
        is_success(raw.status),
        translates(url, Outcome::Received(raw), r),
    ensures
        match r {
            Response::GoodStatus(m, b) => m.status_code == raw.status && b@ == body_bytes(raw.body),
            _ => false,
        },
{
}

/// A request that ran out of time is reported as `Timeout`, never as a
/// network error or an answer.
pub proof fn lemma_time_out_yields_timeout(
    url: Seq<char>,
    malformed: bool,
    message: String,
    r: Response,
)
    requires
        translates(url, Outcome::SendFailed { timed_out: true, malformed, message }, r),
    ensures
        r is Timeout,
        !(r is NetworkError),
        !(r is GoodStatus),
{
}

/// A send failure that is neither a time-out nor a faulty request, such as a
/// host that cannot be resolved, is reported as `NetworkError`.
pub proof fn lemma_transport_failure_yields_network_error(
    url: Seq<char>,
    message: String,
    r: Response,
)
    requires
        translates(url, Outcome::SendFailed { timed_out: false, malformed: false, message }, r),
    ensures
        r is NetworkError,
{
}

/// A response header whose value is not valid text keeps its place and its
/// name, with an empty value, and the call still yields an answer.
pub proof fn lemma_undecodable_header_value_is_empty(
    url: Seq<char>,
    raw: RawResponse,
    r: Response,
    i: int,
)
    requires
        translates(url, Outcome::Received(raw), r),
        0 <= i < raw.headers@.len(),
        utf8_text(raw.headers@[i].value@) is None,
    ensures
        match r {
            Response::GoodStatus(m, _) | Response::BadStatus(m, _) => {
                &&& m.headers@.len() == raw.headers@.len()
                &&& m.headers@[i].name@ == raw.headers@[i].name@
                &&& m.headers@[i].value@ == Seq::<char>::empty()
            },
            _ => false,
        },
{
    match r {
        Response::GoodStatus(m, _) | Response::BadStatus(m, _) => {
            assert(headers_view(m.headers@).len() == m.headers@.len());
            assert(raw_headers_view(raw.headers@).len() == raw.headers@.len());
            assert(headers_view(m.headers@)[i] == raw_headers_view(raw.headers@)[i]);
            assert(headers_view(m.headers@)[i] == (m.headers@[i].name@, m.headers@[i].value@));
        },
        _ => {},
    }
}

} // verus!
