//! The error kind shared by every endpoint.
use vstd::prelude::*;
use vstd::utf8::*;

verus! {

/// Failures that any endpoint can report.
#[derive(Debug, PartialEq, Eq)]
pub enum BaseError {
    /// A malformed request, with the reason as text.
    BadRequest(String),
    /// The credentials were not accepted.
    Unauthorized,
    /// The credentials do not allow the request.
    PermissionDenied,
    /// Any status that nothing else claims, with the response body as text.
    Undefined(u16, String),
    /// A success body that is not the expected JSON, with the decoder's message.
    JsonDeserialize(String),
    /// The parameters could not be written as JSON, with the encoder's message.
    JsonSerialize(String),
    /// The parameters could not be written as a query string, with the
    /// encoder's message.
    QuerystringSerialize(String),
    /// The request could not be sent or its response not received, with the
    /// transport's message.
    Reqwest(String),
}

/// The text of a response body: its bytes read as UTF-8, each invalid
/// sequence replaced by U+FFFD.
pub uninterp spec fn utf8_lossy(b: Seq<u8>) -> Seq<char>;

/// Relies on `String::from_utf8_lossy`: valid UTF-8 is read as it is, and
/// each invalid sequence becomes U+FFFD.
#[verifier::external_body]
pub(crate) fn body_text(b: &[u8]) -> (r: String)
    ensures
        r@ == utf8_lossy(b@),
        valid_utf8(b@) ==> r@ == decode_utf8(b@),
{
    String::from_utf8_lossy(b).into_owned()
}

/// The base error for a status that no endpoint-specific rule claimed: the
/// undefined-status error with that status and the body's text.
pub open spec fn status_error(code: u16, body: Seq<u8>, e: BaseError) -> bool {
    e matches BaseError::Undefined(c, t) && c == code && t@ == utf8_lossy(body) && (valid_utf8(body)
        ==> t@ == decode_utf8(body))
}

impl BaseError {
    /// The error for a status that neither the success status nor any of the
    /// endpoint's own handlers matched.
    pub fn from_status(code: u16, body: &[u8]) -> (r: BaseError)
        ensures
            status_error(code, body@, r),
    {
        BaseError::Undefined(code, body_text(body))
    }
}

} // verus!
