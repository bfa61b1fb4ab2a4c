//! The error taxonomy of a fetch, and the classifier that maps a raw
//! transport failure onto it.
use vstd::prelude::*;
use vstd::string::StringExecFns;

verus! {

/// The closed set of ways in which a fetch can fail.
#[derive(Debug, Clone, Copy, PartialEq, Eq, Structural)]
pub enum FetchErrorKind {
    Connect,
    Timeout,
    Status(u16),
    Other,
}

/// A raw failure as the transport reported it, reduced to the facts that
/// classification reads and the transport's own message.
#[derive(Debug, Clone)]
pub struct TransportFailure {
    /// A connection could not be established.
    pub is_connect: bool,
    /// The request timed out.
    pub is_timeout: bool,
    /// The HTTP status that the failure carries, if any.
    pub status: Option<u16>,
    /// The transport's display text of the failure.
    pub detail: String,
}

/// The kind of a failure with the given traits. Connection failures come
/// first, then timeouts, then failures that carry a status.
pub open spec fn kind_of(is_connect: bool, is_timeout: bool, status: Option<u16>) -> FetchErrorKind {
    if is_connect {
        FetchErrorKind::Connect
    } else if is_timeout {
        FetchErrorKind::Timeout
    } else {
        match status {
            Some(code) => FetchErrorKind::Status(code),
            None => FetchErrorKind::Other,
        }
    }
}

/// The mathematical value of a [`TransportFailure`].
pub struct TransportFailureView {
    pub is_connect: bool,
    pub is_timeout: bool,
    pub status: Option<u16>,
    pub detail: Seq<char>,
}

impl View for TransportFailure {
    type V = TransportFailureView;

    open spec fn view(&self) -> TransportFailureView {
        TransportFailureView {
            is_connect: self.is_connect,
            is_timeout: self.is_timeout,
            status: self.status,
            detail: self.detail@,
        }
    }
}

impl TransportFailureView {
    pub open spec fn kind(self) -> FetchErrorKind {
        kind_of(self.is_connect, self.is_timeout, self.status)
    }
}

impl TransportFailure {
    /// The kind of this failure: `Connect` before `Timeout` before `Status`,
    /// and `Other` for the rest. The detail text plays no part.
    pub fn classify(&self) -> (r: FetchErrorKind)
        ensures
            r == self@.kind(),
            self.is_connect ==> r == FetchErrorKind::Connect,
            !self.is_connect && self.is_timeout ==> r == FetchErrorKind::Timeout,
    {
        if self.is_connect {
            FetchErrorKind::Connect
        } else if self.is_timeout {
            FetchErrorKind::Timeout
        } else {
            match self.status {
                Some(code) => FetchErrorKind::Status(code),
                None => FetchErrorKind::Other,
            }
        }
    }
}

/// A classified fetch failure: the URL that was requested, the kind of the
/// failure and the transport's text, kept verbatim.
#[derive(Debug, Clone)]
pub struct FetchError {
    pub url: String,
    pub kind: FetchErrorKind,
    pub detail: String,
}

/// The mathematical value of a [`FetchError`].
pub struct FetchErrorView {
    pub url: Seq<char>,
    pub kind: FetchErrorKind,
    pub detail: Seq<char>,
}

impl View for FetchError {
    type V = FetchErrorView;

    open spec fn view(&self) -> FetchErrorView {
        FetchErrorView { url: self.url@, kind: self.kind, detail: self.detail@ }
    }
}

/// The classified error for a raw failure of a request to `url`.
pub open spec fn classified(failure: TransportFailureView, url: Seq<char>) -> FetchErrorView {
    FetchErrorView { url, kind: failure.kind(), detail: failure.detail }
}

impl FetchError {
    /// Classifies a raw failure of the request to `url`.
    pub fn from_failure(failure: &TransportFailure, url: &str) -> (r: FetchError)
        ensures
            r@ == classified(failure@, url@),
    {
        FetchError {
            url: String::from_str(url),
            kind: failure.classify(),
            detail: failure.detail.clone(),
        }
    }
}

} // verus!
