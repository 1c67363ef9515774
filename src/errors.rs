//! Errors that may arise over the course of using the library.

use crate::models::MattermostError;
use vstd::prelude::*;

verus! {

/// `reqwest::Error`, a failure of the HTTP transport.
#[verifier::external_type_specification]
#[verifier::external_body]
pub struct ExReqwestError(reqwest::Error);

/// `http::header::ToStrError`: a header value that is not visible ASCII.
#[verifier::external_type_specification]
#[verifier::external_body]
pub struct ExToStrError(http::header::ToStrError);

/// `http::header::InvalidHeaderValue`: text that cannot be a header value.
#[verifier::external_type_specification]
#[verifier::external_body]
pub struct ExInvalidHeaderValue(http::header::InvalidHeaderValue);

/// `http::method::InvalidMethod`: text that is no HTTP method.
#[verifier::external_type_specification]
#[verifier::external_body]
pub struct ExInvalidMethod(http::method::InvalidMethod);

/// `serde_json::Error`, a failure to read or write JSON.
#[verifier::external_type_specification]
#[verifier::external_body]
pub struct ExJsonError(serde_json::Error);

/// `tungstenite::Error`, a failure of the WebSocket transport.
#[verifier::external_type_specification]
#[verifier::external_body]
pub struct ExWebsocketError(async_tungstenite::tungstenite::Error);

/// Errors that may arise over the course of using the library.
#[derive(Debug)]
pub enum ApiError {
    /// The login response carried no token; holds the response's status.
    CouldNotGetToken(u16),
    /// No token was supplied or retrieved.
    MissingAuthToken,
    /// The HTTP client failed.
    ReqwestError(reqwest::Error),
    /// A header value could not be read as text.
    ReqwestHeaderError(http::header::ToStrError),
    /// JSON could not be read or written.
    JsonProcessingError(serde_json::Error),
    /// A header value could not be built.
    ReqwestHeaderValueError(http::header::InvalidHeaderValue),
    /// The HTTP method is invalid.
    HttpMethodError(http::method::InvalidMethod),
    /// The instance answered with its structured error.
    MattermostApiError(MattermostError),
    /// The instance answered with a non-2xx status and no structured error.
    StatusCodeError(u16),
    /// The WebSocket connection failed.
    WebsocketError(async_tungstenite::tungstenite::Error),
    /// A URL could not be parsed or joined.
    UrlError(url::ParseError),
}

} // verus!
