//! Fetching a network resource once, classifying its failures, and turning
//! them into build diagnostics.
pub mod error;
pub mod fetch;
pub mod issue;
pub mod response;
pub mod text;
pub mod transport;

pub use error::{FetchError, FetchErrorKind, TransportFailure};
pub use fetch::{AfterSend, FetchRequest, FetchResult, on_body, on_sent, plan_request};
pub use issue::{FetchIssue, IssueSeverity};
pub use response::{BodyNotUtf8, HttpResponse, HttpResponseBody};
pub use text::push_decimal;
