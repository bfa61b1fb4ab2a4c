//! The decisions of the fetch executor. The caller performs the network
//! round trip step by step and hands each step's result back here.
use vstd::prelude::*;
use vstd::string::StringExecFns;

use crate::error::{
    FetchError, FetchErrorKind, FetchErrorView, TransportFailure, TransportFailureView, classified,
};
use crate::response::{HttpResponse, HttpResponseBody, HttpResponseView};

verus! {

/// The outcome of one fetch: a response, or the classified failure.
#[derive(Debug)]
pub struct FetchResult(pub Result<HttpResponse, FetchError>);

impl View for FetchResult {
    type V = Result<HttpResponseView, FetchErrorView>;

    open spec fn view(&self) -> Result<HttpResponseView, FetchErrorView> {
        match self.0 {
            Ok(response) => Ok(response@),
            Err(error) => Err(error@),
        }
    }
}

/// The single GET request that a fetch issues.
#[derive(Debug, Clone)]
pub struct FetchRequest {
    pub url: String,
    /// The one header attached to the request, as a name and a value.
    pub header: Option<(String, String)>,
}

/// The name of the header that carries the client identity.
pub open spec fn identity_header() -> Seq<char> {
    "User-Agent"@
}

/// The request for `url`, carrying `user_agent` as its identity header when
/// one is given.
pub fn plan_request(url: &str, user_agent: &Option<String>) -> (r: FetchRequest)
    ensures
        r.url@ == url@,
        r.header is Some <==> user_agent is Some,
        r.header matches Some(h) ==> h.0@ == identity_header() && h.1@ == user_agent->0@,
{
    let header = match user_agent {
        Some(agent) => Some((String::from_str("User-Agent"), agent.clone())),
        None => None,
    };
    FetchRequest { url: String::from_str(url), header }
}

/// What the transport reported for the request itself: the status of the
/// response that arrived, or the failure.
pub open spec fn sent_view(sent: Result<u16, TransportFailure>) -> Result<u16, TransportFailureView> {
    match sent {
        Ok(status) => Ok(status),
        Err(f) => Err(f@),
    }
}

/// What the transport reported while reading the body: its bytes, or the
/// failure.
pub open spec fn body_view(body: Result<Vec<u8>, TransportFailure>) -> Result<Seq<u8>, TransportFailureView> {
    match body {
        Ok(bytes) => Ok(bytes@),
        Err(f) => Err(f@),
    }
}

/// The status codes that the transport can report.
pub open spec fn valid_status(status: u16) -> bool {
    100 <= status <= 999
}

/// The status codes of responses that count as errors.
pub open spec fn error_status(status: u16) -> bool {
    status >= 400
}

/// The failure for a response whose status is an error although the
/// transport raised none: it has no text of its own.
pub open spec fn status_failure(url: Seq<char>, status: u16) -> FetchErrorView {
    FetchErrorView { url, kind: FetchErrorKind::Status(status), detail: Seq::empty() }
}

/// The outcome of a fetch of `url`, given what the transport reported for
/// the request and, where a body was read, for the body.
pub open spec fn fetch_outcome(
    url: Seq<char>,
    sent: Result<u16, TransportFailureView>,
    body: Result<Seq<u8>, TransportFailureView>,
) -> Result<HttpResponseView, FetchErrorView> {
    match sent {
        Err(f) => Err(classified(f, url)),
        Ok(status) => if error_status(status) {
            Err(status_failure(url, status))
        } else {
            match body {
                Ok(bytes) => Ok(HttpResponseView { status, body: bytes }),
                Err(f) => Err(classified(f, url)),
            }
        },
    }
}

/// What follows the request: read the body of a response with this
/// status, or stop with this outcome.
#[derive(Debug)]
pub enum AfterSend {
    ReadBody { status: u16 },
    Done(FetchResult),
}

/// Decides on what the transport reported for the request to `url`. A
/// failure is classified; a response with an error status fails with that
/// status; any other response has its body read next.
pub fn on_sent(url: &str, sent: Result<u16, TransportFailure>) -> (r: AfterSend)
    requires
        sent matches Ok(status) ==> valid_status(status),
    ensures
        r is ReadBody <==> sent is Ok && !error_status(sent->Ok_0),
        r matches AfterSend::ReadBody { status } ==> sent matches Ok(s) && s == status,
        sent is Ok && error_status(sent->Ok_0) ==> (r matches AfterSend::Done(outcome)
            && outcome@ == Err::<HttpResponseView, FetchErrorView>(
            status_failure(url@, sent->Ok_0),
        )),
        r matches AfterSend::Done(outcome) ==> forall|body: Result<Seq<u8>, TransportFailureView>|
            outcome@ == fetch_outcome(url@, sent_view(sent), body),
{
    match sent {
        Err(failure) => AfterSend::Done(FetchResult(Err(FetchError::from_failure(&failure, url)))),
        Ok(status) => if status >= 400 {
            AfterSend::Done(
                FetchResult(
                    Err(
                        FetchError {
                            url: String::from_str(url),
                            kind: FetchErrorKind::Status(status),
                            detail: String::new(),
                        },
                    ),
                ),
            )
        } else {
            AfterSend::ReadBody { status }
        },
    }
}

/// Decides on what the transport reported while reading the body of a
/// response to `url` with the given status.
pub fn on_body(url: &str, status: u16, body: Result<Vec<u8>, TransportFailure>) -> (r: FetchResult)
    requires
        valid_status(status),
        !error_status(status),
    ensures
        r@ == fetch_outcome(url@, Ok(status), body_view(body)),
{
    match body {
        Ok(bytes) => FetchResult(Ok(HttpResponse { status, body: HttpResponseBody(bytes) })),
        Err(failure) => FetchResult(Err(FetchError::from_failure(&failure, url))),
    }
}

/// A successful fetch has a status in 100..=599 and exactly the body bytes
/// that the transport delivered; so where the transport reported a content
/// length and delivered that many bytes, the body has that length.
pub proof fn lemma_success_status_in_range(
    url: Seq<char>,
    sent: Result<u16, TransportFailureView>,
    body: Result<Seq<u8>, TransportFailureView>,
    content_length: Option<nat>,
)
    requires
        sent matches Ok(status) ==> valid_status(status),
        content_length is Some && body is Ok ==> body->Ok_0.len() == content_length->Some_0,
    ensures
        fetch_outcome(url, sent, body) is Ok ==> 100 <= fetch_outcome(url, sent, body)->Ok_0.status
            <= 599 && body == Ok::<Seq<u8>, TransportFailureView>(
            fetch_outcome(url, sent, body)->Ok_0.body,
        ),
        fetch_outcome(url, sent, body) is Ok && content_length is Some ==> fetch_outcome(
            url,
            sent,
            body,
        )->Ok_0.body.len() == content_length->Some_0,
{
}

/// A response whose status is 400 or more fails with exactly that status,
/// never succeeds; so does a transport failure that carries a status and is
/// neither a connection failure nor a timeout.
pub proof fn lemma_error_status_fails(
    url: Seq<char>,
    sent: Result<u16, TransportFailureView>,
    body: Result<Seq<u8>, TransportFailureView>,
)
    ensures
        sent is Ok && error_status(sent->Ok_0) ==> fetch_outcome(url, sent, body) is Err
            && fetch_outcome(url, sent, body)->Err_0.kind == FetchErrorKind::Status(sent->Ok_0),
        sent is Err && !sent->Err_0.is_connect && !sent->Err_0.is_timeout
            && sent->Err_0.status is Some ==> fetch_outcome(url, sent, body) is Err && fetch_outcome(
            url,
            sent,
            body,
        )->Err_0.kind == FetchErrorKind::Status(sent->Err_0.status->Some_0),
{
}

/// Two fetches of the same URL against a transport that reports the same
/// things both times have the same outcome.
pub proof fn lemma_fetch_deterministic(
    url: Seq<char>,
    sent1: Result<u16, TransportFailureView>,
    body1: Result<Seq<u8>, TransportFailureView>,
    sent2: Result<u16, TransportFailureView>,
    body2: Result<Seq<u8>, TransportFailureView>,
)
    requires
        sent1 == sent2,
        body1 == body2,
    ensures
        fetch_outcome(url, sent1, body1) == fetch_outcome(url, sent2, body2),
{
}

} // verus!
