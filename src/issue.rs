//! Turning a classified fetch error into a build diagnostic.
use vstd::prelude::*;
use vstd::string::StringExecFns;

use crate::error::{FetchError, FetchErrorKind, FetchErrorView};
use crate::text::{decimal, push_decimal};

verus! {

/// How serious a reported diagnostic is.
#[derive(Debug, Clone, Copy, PartialEq, Eq, Structural)]
pub enum IssueSeverity {
    Bug,
    Fatal,
    Error,
    Warning,
    Hint,
    Note,
    Suggestion,
    Info,
}

/// The title of every fetch diagnostic.
pub open spec fn fetch_title() -> Seq<char> {
    "Error while requesting resource"@
}

/// The category of every fetch diagnostic.
pub open spec fn fetch_category() -> Seq<char> {
    "fetch"@
}

/// The sentence that describes a failure of the given kind to a reader.
pub open spec fn description_text(kind: FetchErrorKind, url: Seq<char>) -> Seq<char> {
    match kind {
        FetchErrorKind::Connect => "There was an issue establishing a connection while requesting "@
            + url + "."@,
        FetchErrorKind::Status(code) => "Received response with status "@ + decimal(code as nat)
            + " when requesting "@ + url,
        FetchErrorKind::Timeout => "Connection timed out when requesting "@ + url,
        FetchErrorKind::Other => "There was an issue requesting "@ + url,
    }
}

/// A diagnostic for a failed fetch, attached to a source location.
#[derive(Debug, Clone)]
pub struct FetchIssue {
    /// The source location that the diagnostic is reported against.
    pub issue_context: String,
    pub severity: IssueSeverity,
    pub url: String,
    pub kind: FetchErrorKind,
    pub detail: String,
}

impl FetchError {
    /// The diagnostic for this error, with the given severity, reported
    /// against `issue_context`.
    pub fn to_issue(&self, severity: IssueSeverity, issue_context: &str) -> (r: FetchIssue)
        ensures
            r.issue_context@ == issue_context@,
            r.severity == severity,
            r.url@ == self.url@,
            r.kind == self.kind,
            r.detail@ == self.detail@,
    {
        FetchIssue {
            issue_context: String::from_str(issue_context),
            severity,
            url: self.url.clone(),
            kind: self.kind,
            detail: self.detail.clone(),
        }
    }
}

impl FetchIssue {
    /// The source location the diagnostic is reported against.
    pub fn file_path(&self) -> (r: String)
        ensures
            r@ == self.issue_context@,
    {
        self.issue_context.clone()
    }

    pub fn severity(&self) -> (r: IssueSeverity)
        ensures
            r == self.severity,
    {
        self.severity
    }

    pub fn title(&self) -> (r: String)
        ensures
            r@ == fetch_title(),
    {
        String::from_str("Error while requesting resource")
    }

    pub fn category(&self) -> (r: String)
        ensures
            r@ == fetch_category(),
    {
        String::from_str("fetch")
    }

    /// A sentence that names the kind of failure and the requested URL.
    pub fn description(&self) -> (r: String)
        ensures
            r@ == description_text(self.kind, self.url@),
    {
        let url = self.url.as_str();
        match self.kind {
            FetchErrorKind::Connect => {
                let mut s = String::from_str(
                    "There was an issue establishing a connection while requesting ",
                );
                s.append(url);
                s.append(".");
                s
            },
            FetchErrorKind::Status(code) => {
                let mut s = String::from_str("Received response with status ");
                push_decimal(&mut s, code);
                s.append(" when requesting ");
                s.append(url);
                s
            },
            FetchErrorKind::Timeout => {
                let mut s = String::from_str("Connection timed out when requesting ");
                s.append(url);
                s
            },
            FetchErrorKind::Other => {
                let mut s = String::from_str("There was an issue requesting ");
                s.append(url);
                s
            },
        }
    }

    /// The transport's own text, as it was classified.
    pub fn detail(&self) -> (r: String)
        ensures
            r@ == self.detail@,
    {
        self.detail.clone()
    }
}

/// A diagnostic's description and detail depend on the classified error
/// alone: two diagnostics built from equal errors, whatever their severities
/// and locations, read the same.
pub proof fn lemma_diagnostic_deterministic(e1: FetchErrorView, e2: FetchErrorView)
    requires
        e1 == e2,
    ensures
        description_text(e1.kind, e1.url) == description_text(e2.kind, e2.url),
        e1.detail == e2.detail,
{
}

} // verus!
