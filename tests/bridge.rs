use cli_platform::effects::{line_output, panic_report, take_line, PANIC_EXIT_CODE};
use cli_platform::invoker::{usable_size, ClosureInvoker, Signal, Stage, Step};
use cli_platform::request::{plan_request, verb_name, Body, Header, Method, Request, TimeoutConfig};
use cli_platform::response::{
    header_text, status_text, translate, Outcome, RawHeader, RawResponse, Response,
};

fn header(name: &str, value: &str) -> Header {
    Header { name: name.to_string(), value: value.to_string() }
}

fn request(method: Method, body: Body, timeout: TimeoutConfig) -> Request {
    Request {
        method,
        url: "http://example.test/items".to_string(),
        headers: vec![header("Accept", "*/*"), header("X-Trace", "7")],
        body,
        timeout,
    }
}

fn received(status: u16, headers: Vec<RawHeader>, body: Option<Vec<u8>>) -> Outcome {
    Outcome::Received(RawResponse { status, headers, body })
}

fn url() -> String {
    "http://example.test/items".to_string()
}

#[test]
fn write_line_appends_one_newline() {
    assert_eq!(line_output("hi"), "hi\n");
    assert_eq!(line_output(""), "\n");
}

#[test]
fn read_line_strips_terminators() {
    assert_eq!(take_line("hi\n"), Some("hi".to_string()));
    assert_eq!(take_line("hi\r\n"), Some("hi".to_string()));
    assert_eq!(take_line("last"), Some("last".to_string()));
    assert_eq!(take_line("\n"), Some(String::new()));
    assert_eq!(take_line("a\rb"), Some("a\rb".to_string()));
}

#[test]
fn read_line_at_end_of_input_is_none() {
    assert_eq!(take_line(""), None);
}

#[test]
fn panic_report_for_known_and_unknown_tags() {
    assert_eq!(panic_report(0, "boom"), Some("Roc hit a panic: boom".to_string()));
    assert_eq!(panic_report(1, "boom"), None);
    assert_eq!(panic_report(u32::MAX, ""), None);
    assert_eq!(PANIC_EXIT_CODE, 1);
}

#[test]
fn usable_size_bounds() {
    assert_eq!(usable_size(-1), None);
    assert_eq!(usable_size(i64::MIN), None);
    assert_eq!(usable_size(0), Some(0));
    assert_eq!(usable_size(48), Some(48));
    assert_eq!(usable_size(isize::MAX as i64), Some(isize::MAX as usize));
}

#[test]
fn invoker_allocates_two_buffers_and_frees_each_once() {
    let mut inv = ClosureInvoker::new();
    let signals = [
        Signal::Start,
        Signal::SizeReported { size: 24 },
        Signal::Allocated { buffer: 0x1000 },
        Signal::Completed,
        Signal::SizeReported { size: 8 },
        Signal::Allocated { buffer: 0x2000 },
        Signal::Completed,
        Signal::Completed,
        Signal::Completed,
    ];
    let steps: Vec<Step> = signals.iter().map(|s| inv.advance(*s)).collect();
    assert_eq!(
        steps,
        vec![
            Step::QueryEntrySize,
            Step::Allocate { size: 24 },
            Step::RunEntry { output: 0x1000 },
            Step::QueryResultSize,
            Step::Allocate { size: 8 },
            Step::RunContinuation { closure_data: 0x1000, output: 0x2000 },
            Step::Release { buffer: 0x2000 },
            Step::Release { buffer: 0x1000 },
            Step::Finish,
        ]
    );
    assert_eq!(inv.stage, Stage::Finished);
    let allocations: Vec<usize> = steps
        .iter()
        .filter_map(|s| match s {
            Step::Allocate { size } => Some(*size),
            _ => None,
        })
        .collect();
    assert_eq!(allocations, vec![24, 8]);
    let releases: Vec<usize> = steps
        .iter()
        .filter_map(|s| match s {
            Step::Release { buffer } => Some(*buffer),
            _ => None,
        })
        .collect();
    assert_eq!(releases, vec![0x2000, 0x1000]);
}

#[test]
fn invoker_aborts_on_negative_size() {
    let mut inv = ClosureInvoker::new();
    assert_eq!(inv.advance(Signal::Start), Step::QueryEntrySize);
    assert_eq!(inv.advance(Signal::SizeReported { size: -4 }), Step::Abort);
    assert_eq!(inv.stage, Stage::Aborted);
}

#[test]
fn invoker_aborts_on_out_of_order_signal() {
    let mut inv = ClosureInvoker::new();
    assert_eq!(inv.advance(Signal::Completed), Step::Abort);
    let mut inv = ClosureInvoker::new();
    inv.advance(Signal::Start);
    inv.advance(Signal::SizeReported { size: 0 });
    assert_eq!(inv.advance(Signal::SizeReported { size: 0 }), Step::Abort);
}

#[test]
fn verbs_are_passed_through() {
    let all = [
        (Method::Connect, "CONNECT"),
        (Method::Delete, "DELETE"),
        (Method::Get, "GET"),
        (Method::Head, "HEAD"),
        (Method::Options, "OPTIONS"),
        (Method::Patch, "PATCH"),
        (Method::Post, "POST"),
        (Method::Put, "PUT"),
        (Method::Trace, "TRACE"),
    ];
    for (m, name) in all {
        assert_eq!(verb_name(m), name);
    }
}

#[test]
fn get_without_body_or_timeout_is_planned_as_is() {
    let req = request(Method::Get, Body::EmptyBody, TimeoutConfig::NoTimeout);
    let call = plan_request(&req);
    assert_eq!(call.verb, "GET");
    assert_eq!(call.url, "http://example.test/items");
    let names: Vec<(&str, &str)> =
        call.headers.iter().map(|h| (h.name.as_str(), h.value.as_str())).collect();
    assert_eq!(names, vec![("Accept", "*/*"), ("X-Trace", "7")]);
    assert_eq!(call.payload, None);
    assert_eq!(call.timeout_ms, None);
}

#[test]
fn post_with_json_body_sets_content_type_and_payload() {
    let payload = b"{\"n\":1}".to_vec();
    let body = Body::Body { mime_type: "application/json".to_string(), bytes: payload.clone() };
    let req = request(Method::Post, body, TimeoutConfig::TimeoutMilliseconds(250));
    let call = plan_request(&req);
    assert_eq!(call.verb, "POST");
    let names: Vec<(&str, &str)> =
        call.headers.iter().map(|h| (h.name.as_str(), h.value.as_str())).collect();
    assert_eq!(
        names,
        vec![("Accept", "*/*"), ("X-Trace", "7"), ("Content-Type", "application/json")]
    );
    assert_eq!(call.payload, Some(payload));
    assert_eq!(call.timeout_ms, Some(250));
}

#[test]
fn status_200_yields_good_status_with_exact_body() {
    let body = vec![0u8, 1, 2, 255];
    let headers = vec![RawHeader { name: "content-length".to_string(), value: b"4".to_vec() }];
    match translate(&url(), received(200, headers, Some(body.clone()))) {
        Response::GoodStatus(m, b) => {
            assert_eq!(b, body);
            assert_eq!(m.status_code, 200);
            assert_eq!(m.status_text, "OK");
            assert_eq!(m.url, url());
            assert_eq!(m.headers.len(), 1);
            assert_eq!(m.headers[0].name, "content-length");
            assert_eq!(m.headers[0].value, "4");
        }
        other => panic!("unexpected {:?}", other),
    }
}

#[test]
fn status_404_yields_bad_status_with_reason() {
    match translate(&url(), received(404, vec![], Some(b"missing".to_vec()))) {
        Response::BadStatus(m, b) => {
            assert_eq!(m.status_code, 404);
            assert_eq!(m.status_text, "Not Found");
            assert_eq!(b, b"missing".to_vec());
        }
        other => panic!("unexpected {:?}", other),
    }
}

#[test]
fn status_without_reason_uses_its_number() {
    match translate(&url(), received(299, vec![], None)) {
        Response::GoodStatus(m, b) => {
            assert_eq!(m.status_text, "299");
            assert!(b.is_empty());
        }
        other => panic!("unexpected {:?}", other),
    }
    match translate(&url(), received(300, vec![], None)) {
        Response::BadStatus(m, _) => assert_eq!(m.status_text, "Multiple Choices"),
        other => panic!("unexpected {:?}", other),
    }
}

#[test]
fn invalid_header_text_becomes_empty() {
    let headers = vec![
        RawHeader { name: "x-bad".to_string(), value: vec![0xff, 0xfe] },
        RawHeader { name: "x-good".to_string(), value: "caf\u{e9}".as_bytes().to_vec() },
    ];
    match translate(&url(), received(201, headers, Some(vec![]))) {
        Response::GoodStatus(m, _) => {
            assert_eq!(m.headers[0].name, "x-bad");
            assert_eq!(m.headers[0].value, "");
            assert_eq!(m.headers[1].name, "x-good");
            assert_eq!(m.headers[1].value, "caf\u{e9}");
        }
        other => panic!("unexpected {:?}", other),
    }
}

#[test]
fn timeout_yields_timeout() {
    let out = Outcome::SendFailed { timed_out: true, malformed: false, message: "t".to_string() };
    assert!(matches!(translate(&url(), out), Response::Timeout));
    let out = Outcome::SendFailed { timed_out: true, malformed: true, message: "t".to_string() };
    assert!(matches!(translate(&url(), out), Response::Timeout));
}

#[test]
fn unreachable_host_yields_network_error() {
    let out = Outcome::SendFailed {
        timed_out: false,
        malformed: false,
        message: "dns error".to_string(),
    };
    assert!(matches!(translate(&url(), out), Response::NetworkError));
    assert!(matches!(translate(&url(), Outcome::ClientUnavailable), Response::NetworkError));
}

#[test]
fn faulty_requests_yield_bad_request() {
    let out = Outcome::BuildFailed { message: "invalid header".to_string() };
    match translate(&url(), out) {
        Response::BadRequest(m) => assert_eq!(m, "invalid header"),
        other => panic!("unexpected {:?}", other),
    }
    let out = Outcome::SendFailed {
        timed_out: false,
        malformed: true,
        message: "builder error".to_string(),
    };
    match translate(&url(), out) {
        Response::BadRequest(m) => assert_eq!(m, "builder error"),
        other => panic!("unexpected {:?}", other),
    }
}

#[test]
fn status_text_falls_back_to_digits() {
    assert_eq!(status_text(None, 0), "0");
    assert_eq!(status_text(None, 7), "7");
    assert_eq!(status_text(None, 599), "599");
    assert_eq!(status_text(None, u16::MAX), "65535");
    assert_eq!(status_text(Some("Teapot".to_string()), 418), "Teapot");
}

#[test]
fn header_text_of_undecodable_value_is_empty() {
    assert_eq!(header_text(None), "");
    assert_eq!(header_text(Some("v".to_string())), "v");
}
