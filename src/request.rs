//! Requests to the REST API and the classification of their responses.

use crate::errors::ApiError;
use crate::models::MattermostError;
use crate::web_url::WebUrl;
use vstd::prelude::*;

verus! {

/// A request ready to be sent: everything the HTTP transport needs.
#[derive(Debug)]
pub struct ApiRequest {
    /// The HTTP method, as `GET`.
    pub method: String,
    /// The URL, without the query parameters.
    pub url: WebUrl,
    /// The headers, as (name, value) pairs.
    pub headers: Vec<(String, String)>,
    /// The query parameters, as (name, value) pairs, in order.
    pub query: Vec<(String, String)>,
    /// The raw body, if any.
    pub body: Option<String>,
}

/// A character of an HTTP token: an ASCII letter or digit, or one of
/// ``!#$%&'*+-.^_`|~``.
pub open spec fn is_token_char(c: char) -> bool {
    ('a' <= c && c <= 'z') || ('A' <= c && c <= 'Z') || ('0' <= c && c <= '9') || c == '!'
        || c == '#' || c == '$' || c == '%' || c == '&' || c == '\'' || c == '*' || c == '+'
        || c == '-' || c == '.' || c == '^' || c == '_' || c == '`' || c == '|' || c == '~'
}

/// A valid HTTP method: a non-empty token.
pub open spec fn is_method_text(s: Seq<char>) -> bool {
    s.len() > 0 && forall|i: int| 0 <= i < s.len() ==> is_token_char(#[trigger] s[i])
}

/// A character that a header value may hold: a tab, or anything but an ASCII
/// control character.
pub open spec fn is_header_value_char(c: char) -> bool {
    c == '\t' || (' ' <= c && c != '\x7f')
}

/// Text that can be a header value.
pub open spec fn is_header_value_text(s: Seq<char>) -> bool {
    forall|i: int| 0 <= i < s.len() ==> is_header_value_char(#[trigger] s[i])
}

/// Relies on `http::Method::from_bytes`: it accepts exactly the non-empty
/// strings of token characters.
#[verifier::external_body]
pub(crate) fn check_method(method: &str) -> (r: Result<(), http::method::InvalidMethod>)
    ensures
        r is Ok <==> is_method_text(method@),
{
    http::Method::from_bytes(method.as_bytes()).map(|_| ())
}

/// Relies on `http::HeaderValue::from_str`: it refuses exactly the text with
/// a byte below 32, other than a tab, or the byte 127.
#[verifier::external_body]
pub(crate) fn check_header_value(value: &str) -> (r: Result<(), http::header::InvalidHeaderValue>)
    ensures
        r is Ok <==> is_header_value_text(value@),
{
    http::HeaderValue::from_str(value).map(|_| ())
}

/// A status in the 2xx range.
pub open spec fn is_success_status(status: u16) -> bool {
    200 <= status < 300
}

/// Whether a response status signals success.
pub fn is_success(status: u16) -> (r: bool)
    ensures
        r == is_success_status(status),
{
    200 <= status && status < 300
}

/// The error of a response whose status is not a success: the structured
/// error its body held, or else the bare status.
pub open spec fn failure_error(status: u16, error: Option<MattermostError>) -> ApiError {
    match error {
        Some(e) => ApiError::MattermostApiError(e),
        None => ApiError::StatusCodeError(status),
    }
}

/// What a response with `status` means: success for a 2xx status; otherwise
/// the instance's structured error when its body held one (`error`), or else
/// an error carrying the bare status.
pub fn check_response(status: u16, error: Option<MattermostError>) -> (r: Result<(), ApiError>)
    ensures
        is_success_status(status) ==> r is Ok,
        !is_success_status(status) ==> r == Err::<(), ApiError>(failure_error(status, error)),
{
    if is_success(status) {
        Ok(())
    } else {
        match error {
            Some(e) => Err(ApiError::MattermostApiError(e)),
            None => Err(ApiError::StatusCodeError(status)),
        }
    }
}

} // verus!
