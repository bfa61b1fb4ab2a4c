//! A successful response and its body.
use vstd::prelude::*;
use vstd::utf8::{decode_utf8, decode_utf8_encode_utf8, encode_utf8, valid_utf8};

verus! {

/// The bytes of a response body, read in full.
#[derive(Debug, Clone)]
pub struct HttpResponseBody(pub Vec<u8>);

/// A body whose bytes are not UTF-8. It is no fetch failure: the fetch
/// itself succeeded.
#[derive(Debug, Clone, Copy, PartialEq, Eq, Structural)]
pub struct BodyNotUtf8;

/// Relies on std::str::from_utf8: it succeeds exactly on valid UTF-8, and
/// the string it gives holds the characters those bytes encode.
#[verifier::external_body]
fn text_of(bytes: &[u8]) -> (r: Option<String>)
    ensures
        r is Some <==> valid_utf8(bytes@),
        r matches Some(s) ==> s@ == decode_utf8(bytes@),
{
    std::str::from_utf8(bytes).ok().map(|s| s.to_owned())
}

impl HttpResponseBody {
    /// The body as text; `BodyNotUtf8` exactly when its bytes are not UTF-8.
    /// The text encodes back to the body's bytes.
    pub fn to_string(&self) -> (r: Result<String, BodyNotUtf8>)
        ensures
            r is Ok <==> valid_utf8(self.0@),
            r matches Ok(s) ==> s@ == decode_utf8(self.0@),
            r matches Ok(s) ==> encode_utf8(s@) == self.0@,
    {
        match text_of(self.0.as_slice()) {
            Some(s) => {
                proof {
                    lemma_body_text_round_trip(self.0@);
                }
                Ok(s)
            },
            None => Err(BodyNotUtf8),
        }
    }
}

/// Reading valid UTF-8 bytes as text and encoding that text again gives
/// back the same bytes.
pub proof fn lemma_body_text_round_trip(bytes: Seq<u8>)
    requires
        valid_utf8(bytes),
    ensures
        encode_utf8(decode_utf8(bytes)) == bytes,
{
    decode_utf8_encode_utf8(bytes);
}

/// A response that the transport did not report as failed: its status code
/// and its body.
#[derive(Debug, Clone)]
pub struct HttpResponse {
    pub status: u16,
    pub body: HttpResponseBody,
}

/// The mathematical value of an [`HttpResponse`].
pub struct HttpResponseView {
    pub status: u16,
    pub body: Seq<u8>,
}

impl View for HttpResponse {
    type V = HttpResponseView;

    open spec fn view(&self) -> HttpResponseView {
        HttpResponseView { status: self.status, body: self.body.0@ }
    }
}

} // verus!
