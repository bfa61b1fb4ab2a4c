use turbo_tasks_fetch::{
    on_body, on_sent, plan_request, AfterSend, BodyNotUtf8, FetchError, FetchErrorKind,
    FetchResult, HttpResponseBody, IssueSeverity, TransportFailure,
};

fn failure(is_connect: bool, is_timeout: bool, status: Option<u16>, detail: &str) -> TransportFailure {
    TransportFailure { is_connect, is_timeout, status, detail: detail.to_string() }
}

fn done(step: AfterSend) -> FetchResult {
    match step {
        AfterSend::Done(result) => result,
        AfterSend::ReadBody { status } => panic!("expected an outcome, got a body read for {status}"),
    }
}

fn fetch_with(url: &str, sent: Result<u16, TransportFailure>, body: Result<Vec<u8>, TransportFailure>) -> FetchResult {
    match on_sent(url, sent) {
        AfterSend::Done(result) => result,
        AfterSend::ReadBody { status } => on_body(url, status, body),
    }
}

#[test]
fn success_scenario_keeps_status_and_body() {
    let url = "https://example.test/ok";
    let result = fetch_with(url, Ok(200), Ok(b"hello".to_vec()));
    let response = result.0.expect("success");
    assert_eq!(response.status, 200);
    assert_eq!(response.body.0, b"hello".to_vec());
    assert_eq!(response.body.to_string(), Ok("hello".to_string()));
}

#[test]
fn redirect_status_is_read_as_success() {
    match on_sent("https://example.test/r", Ok(304)) {
        AfterSend::ReadBody { status } => assert_eq!(status, 304),
        AfterSend::Done(_) => panic!("a 304 response is read"),
    }
}

#[test]
fn unreachable_host_is_connect_failure() {
    let url = "https://unreachable.test/";
    let sent = Err(failure(true, false, None, "error sending request"));
    let error = done(on_sent(url, sent)).0.expect_err("failure");
    assert_eq!(error.kind, FetchErrorKind::Connect);
    assert_eq!(error.url, url);
    assert_eq!(error.detail, "error sending request");
    let issue = error.to_issue(IssueSeverity::Error, "/project/page.js");
    let description = issue.description();
    assert!(description.contains("establishing a connection"));
    assert!(description.contains(url));
    assert_eq!(
        description,
        "There was an issue establishing a connection while requesting https://unreachable.test/."
    );
}

#[test]
fn connect_failure_wins_over_status_and_timeout() {
    let f = failure(true, true, Some(502), "HTTP status server error (502 Bad Gateway)");
    assert_eq!(f.classify(), FetchErrorKind::Connect);
    let f = failure(true, false, Some(404), "");
    assert_eq!(f.classify(), FetchErrorKind::Connect);
}

#[test]
fn not_found_scenario_reports_status() {
    let url = "https://example.test/missing";
    let error = done(on_sent(url, Ok(404))).0.expect_err("failure");
    assert_eq!(error.kind, FetchErrorKind::Status(404));
    let issue = error.to_issue(IssueSeverity::Warning, "/project/page.js");
    assert_eq!(
        issue.description(),
        "Received response with status 404 when requesting https://example.test/missing"
    );
}

#[test]
fn transport_status_error_is_classified_as_status() {
    let url = "https://example.test/boom";
    let detail = "HTTP status server error (503 Service Unavailable) for url (https://example.test/boom)";
    let error = done(on_sent(url, Err(failure(false, false, Some(503), detail)))).0.expect_err("failure");
    assert_eq!(error.kind, FetchErrorKind::Status(503));
    assert_eq!(error.detail, detail);
    let issue = error.to_issue(IssueSeverity::Error, "/a");
    assert_eq!(issue.detail(), detail);
    assert_eq!(
        issue.description(),
        "Received response with status 503 when requesting https://example.test/boom"
    );
}

#[test]
fn every_status_from_400_fails() {
    for code in [400u16, 401, 418, 499, 500, 599, 600, 999] {
        let error = done(on_sent("https://example.test/", Ok(code))).0.expect_err("failure");
        assert_eq!(error.kind, FetchErrorKind::Status(code));
    }
}

#[test]
fn timeout_scenario() {
    let url = "https://slow.test/";
    let error = done(on_sent(url, Err(failure(false, true, None, "operation timed out")))).0.expect_err("failure");
    assert_eq!(error.kind, FetchErrorKind::Timeout);
    let issue = error.to_issue(IssueSeverity::Error, "/a");
    let description = issue.description();
    assert!(description.contains("timed out"));
    assert_eq!(description, "Connection timed out when requesting https://slow.test/");
}

#[test]
fn timeout_wins_over_status() {
    let f = failure(false, true, Some(408), "timeout");
    assert_eq!(f.classify(), FetchErrorKind::Timeout);
}

#[test]
fn other_failure_and_its_description() {
    let url = "not a url";
    let error = done(on_sent(url, Err(failure(false, false, None, "builder error")))).0.expect_err("failure");
    assert_eq!(error.kind, FetchErrorKind::Other);
    let issue = error.to_issue(IssueSeverity::Error, "/a");
    assert_eq!(issue.description(), "There was an issue requesting not a url");
}

#[test]
fn body_read_failure_is_classified() {
    let url = "https://example.test/cut";
    let result = fetch_with(url, Ok(200), Err(failure(false, true, None, "body timed out")));
    let error = result.0.expect_err("failure");
    assert_eq!(error.kind, FetchErrorKind::Timeout);
    assert_eq!(error.url, url);
}

#[test]
fn diagnostic_fields() {
    let error = FetchError::from_failure(&failure(false, false, None, "raw text"), "https://x.test/");
    let issue = error.to_issue(IssueSeverity::Fatal, "/src/index.js");
    assert_eq!(issue.title(), "Error while requesting resource");
    assert_eq!(issue.category(), "fetch");
    assert_eq!(issue.file_path(), "/src/index.js");
    assert_eq!(issue.severity(), IssueSeverity::Fatal);
    assert_eq!(issue.detail(), "raw text");
}

#[test]
fn diagnostic_is_deterministic() {
    let error = FetchError::from_failure(&failure(false, false, Some(500), "x"), "https://x.test/");
    let a = error.to_issue(IssueSeverity::Error, "/a");
    let b = error.to_issue(IssueSeverity::Error, "/a");
    assert_eq!(a.description(), b.description());
    assert_eq!(a.detail(), b.detail());
}

#[test]
fn identical_fetches_have_identical_outcomes() {
    let url = "https://example.test/ok";
    let a = fetch_with(url, Ok(200), Ok(b"same".to_vec())).0.expect("success");
    let b = fetch_with(url, Ok(200), Ok(b"same".to_vec())).0.expect("success");
    assert_eq!((a.status, a.body.0), (b.status, b.body.0));
    let e1 = fetch_with(url, Err(failure(true, false, None, "d")), Ok(vec![])).0.expect_err("failure");
    let e2 = fetch_with(url, Err(failure(true, false, None, "d")), Ok(vec![])).0.expect_err("failure");
    assert_eq!((e1.url, e1.kind, e1.detail), (e2.url, e2.kind, e2.detail));
}

#[test]
fn body_text_round_trip() {
    let bytes = "héllo wörld ✓ 𝄞".as_bytes().to_vec();
    let body = HttpResponseBody(bytes.clone());
    let text = body.to_string().expect("utf-8");
    assert_eq!(text.as_bytes(), &bytes[..]);
    assert_eq!(text, "héllo wörld ✓ 𝄞");
}

#[test]
fn empty_body_is_empty_text() {
    assert_eq!(HttpResponseBody(vec![]).to_string(), Ok(String::new()));
}

#[test]
fn non_utf8_body_is_a_decode_error() {
    assert_eq!(HttpResponseBody(vec![0x66, 0xff, 0x6f]).to_string(), Err(BodyNotUtf8));
    assert_eq!(HttpResponseBody(vec![0xc3]).to_string(), Err(BodyNotUtf8));
}

#[test]
fn identity_header_is_attached_only_when_given() {
    let with = plan_request("https://example.test/", &Some("my-agent/1.0".to_string()));
    assert_eq!(with.url, "https://example.test/");
    assert_eq!(with.header, Some(("User-Agent".to_string(), "my-agent/1.0".to_string())));
    let without = plan_request("https://example.test/", &None);
    assert_eq!(without.header, None);
}

#[test]
fn decimal_rendering() {
    let mut s = String::from("n=");
    turbo_tasks_fetch::push_decimal(&mut s, 0);
    assert_eq!(s, "n=0");
    let mut s = String::new();
    turbo_tasks_fetch::push_decimal(&mut s, 65535);
    assert_eq!(s, "65535");
    let mut s = String::new();
    turbo_tasks_fetch::push_decimal(&mut s, 100);
    assert_eq!(s, "100");
}

#[test]
fn malformed_url_reqwest_error_is_other_with_its_text() {
    let error = reqwest::Client::new().get("not a url").build().expect_err("malformed url");
    let classified = FetchError::from_reqwest_error(&error, "not a url");
    assert_eq!(classified.kind, FetchErrorKind::Other);
    assert_eq!(classified.url, "not a url");
    assert_eq!(classified.detail, error.to_string());
    assert!(!classified.detail.is_empty());
    let raw = TransportFailure::from_reqwest_error(&error);
    assert!(!raw.is_connect && !raw.is_timeout && raw.status.is_none());
}
