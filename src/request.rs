use vstd::prelude::*;
use vstd::string::StringExecFns;

verus! {

/// The HTTP verbs a request can use.
#[derive(Debug, PartialEq, Eq, Structural, Clone, Copy)]
pub enum Method {
    Connect,
    Delete,
    Get,
    Head,
    Options,
    Patch,
    Post,
    Put,
    Trace,
}

/// A header: a name and a value.
#[derive(Debug)]
pub struct Header {
    pub name: String,
    pub value: String,
}

/// The body of a request: absent, or a MIME type with the bytes to send.
#[derive(Debug)]
pub enum Body {
    EmptyBody,
    Body { mime_type: String, bytes: Vec<u8> },
}

/// How long the whole request may take.
#[derive(Debug, PartialEq, Eq, Structural, Clone, Copy)]
pub enum TimeoutConfig {
    NoTimeout,
    TimeoutMilliseconds(u64),
}

/// A request as the generated program describes it.
#[derive(Debug)]
pub struct Request {
    pub method: Method,
    pub url: String,
    pub headers: Vec<Header>,
    pub body: Body,
    pub timeout: TimeoutConfig,
}

/// A request as it is handed to the HTTP client: the verb's name, the URL,
/// every header in the order it is attached, the payload if there is one,
/// and the client's timeout if one is set.
#[derive(Debug)]
pub struct HttpCall {
    pub verb: String,
    pub url: String,
    pub headers: Vec<Header>,
    pub payload: Option<Vec<u8>>,
    pub timeout_ms: Option<u64>,
}

/// A header seen as its name and value.
pub open spec fn header_view(h: Header) -> (Seq<char>, Seq<char>) {
    (h.name@, h.value@)
}

pub open spec fn headers_view(hs: Seq<Header>) -> Seq<(Seq<char>, Seq<char>)> {
    hs.map_values(|h: Header| header_view(h))
}

/// The name of each verb, as HTTP writes it.
pub open spec fn verb_text(m: Method) -> Seq<char> {
    match m {
        Method::Connect => seq!['C', 'O', 'N', 'N', 'E', 'C', 'T'],
        Method::Delete => seq!['D', 'E', 'L', 'E', 'T', 'E'],
        Method::Get => seq!['G', 'E', 'T'],
        Method::Head => seq!['H', 'E', 'A', 'D'],
        Method::Options => seq!['O', 'P', 'T', 'I', 'O', 'N', 'S'],
        Method::Patch => seq!['P', 'A', 'T', 'C', 'H'],
        Method::Post => seq!['P', 'O', 'S', 'T'],
        Method::Put => seq!['P', 'U', 'T'],
        Method::Trace => seq!['T', 'R', 'A', 'C', 'E'],
    }
}

pub open spec fn content_type_name() -> Seq<char> {
    seq!['C', 'o', 'n', 't', 'e', 'n', 't', '-', 'T', 'y', 'p', 'e']
}

/// The headers sent for a request: the caller's, in order, followed by a
/// `Content-Type` carrying the body's MIME type when there is a body.
pub open spec fn sent_headers(req: Request) -> Seq<(Seq<char>, Seq<char>)> {
    match req.body {
        Body::EmptyBody => headers_view(req.headers@),
        Body::Body { mime_type, bytes } => headers_view(req.headers@).push(
            (content_type_name(), mime_type@),
        ),
    }
}

/// The payload sent for a request: the body's bytes, if there is a body.
pub open spec fn sent_payload(req: Request) -> Option<Seq<u8>> {
    match req.body {
        Body::EmptyBody => None,
        Body::Body { mime_type, bytes } => Some(bytes@),
    }
}

pub open spec fn client_timeout(t: TimeoutConfig) -> Option<u64> {
    match t {
        TimeoutConfig::NoTimeout => None,
        TimeoutConfig::TimeoutMilliseconds(ms) => Some(ms),
    }
}

/// The name of the verb `m`.
pub fn verb_name(m: Method) -> (r: String)
    ensures
        r@ == verb_text(m),
{
    let s = match m {
        Method::Connect => "CONNECT",
        Method::Delete => "DELETE",
        Method::Get => "GET",
        Method::Head => "HEAD",
        Method::Options => "OPTIONS",
        Method::Patch => "PATCH",
        Method::Post => "POST",
        Method::Put => "PUT",
        Method::Trace => "TRACE",
    };
    proof {
        reveal_strlit("CONNECT");
        reveal_strlit("DELETE");
        reveal_strlit("GET");
        reveal_strlit("HEAD");
        reveal_strlit("OPTIONS");
        reveal_strlit("PATCH");
        reveal_strlit("POST");
        reveal_strlit("PUT");
        reveal_strlit("TRACE");
    }
    let r = String::from_str(s);
    assert(r@ =~= verb_text(m));
    r
}

fn copy_headers(hs: &Vec<Header>) -> (r: Vec<Header>)
    ensures
        headers_view(r@) == headers_view(hs@),
{
    let mut r: Vec<Header> = Vec::new();
    let mut i: usize = 0;
    while i < hs.len()
        invariant
            i <= hs@.len(),
            headers_view(r@) =~= headers_view(hs@.take(i as int)),
        decreases hs@.len() - i,
    {
        let h = Header { name: hs[i].name.clone(), value: hs[i].value.clone() };
        let ghost before = r@;
        r.push(h);
        assert(headers_view(r@) =~= headers_view(before).push(header_view(hs@[i as int])));
        assert(hs@.take(i as int + 1) =~= hs@.take(i as int).push(hs@[i as int]));
        i = i + 1;
    }
    assert(hs@.take(i as int) =~= hs@);
    r
}

/// Encodes a request for the HTTP client: the verb by name, the URL, the
/// headers in order with the body's `Content-Type` appended, the body's bytes
/// as payload, and the timeout when one is given.
pub fn plan_request(req: &Request) -> (r: HttpCall)
    ensures
        r.verb@ == verb_text(req.method),
        r.url@ == req.url@,
        headers_view(r.headers@) == sent_headers(*req),
        match sent_payload(*req) {
            None => r.payload.is_none(),
            Some(p) => r.payload.is_some() && r.payload.unwrap()@ == p,
        },
        r.timeout_ms == client_timeout(req.timeout),
{
    let mut headers = copy_headers(&req.headers);
    let payload = match &req.body {
        Body::EmptyBody => None,
        Body::Body { mime_type, bytes } => {
            proof {
                reveal_strlit("Content-Type");
            }
            let name = String::from_str("Content-Type");
            assert(name@ =~= content_type_name());
            headers.push(Header { name, value: mime_type.clone() });
            assert(headers_view(headers@) =~= sent_headers(*req));
            Some(bytes.clone())
        },
    };
    let timeout_ms = match req.timeout {
        TimeoutConfig::NoTimeout => None,
        TimeoutConfig::TimeoutMilliseconds(ms) => Some(ms),
    };
    HttpCall { verb: verb_name(req.method), url: req.url.clone(), headers, payload, timeout_ms }
}

/// A request with a body sends, after the caller's headers, a `Content-Type`
/// header holding the body's MIME type, and sends exactly the body's bytes.
pub proof fn lemma_body_sets_content_type(req: Request)
    requires
        req.body is Body,
    ensures
        match req.body {
            Body::Body { mime_type, bytes } => {
                &&& sent_headers(req).len() == req.headers@.len() + 1
                &&& sent_headers(req).last() == (content_type_name(), mime_type@)
                &&& sent_headers(req).take(req.headers@.len() as int) == headers_view(req.headers@)
                &&& sent_payload(req) == Some(bytes@)
            },
            Body::EmptyBody => false,
        },
{
    match req.body {
        Body::Body { mime_type, bytes } => {
            let hv = headers_view(req.headers@);
            assert(hv.push((content_type_name(), mime_type@)).take(hv.len() as int) =~= hv);
        },
        Body::EmptyBody => {},
    }
}

} // verus!
