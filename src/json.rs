//! The JSON texts the library sends: the login body, the authentication
//! challenge and the body of a new post.

use crate::errors::ApiError;
use crate::models::PostBody;
use crate::text::concat;
use vstd::prelude::*;

verus! {

/// The JSON string literal that `serde_json` writes for `s`, quotes included.
pub uninterp spec fn json_quoted(s: Seq<char>) -> Seq<char>;

/// Relies on `serde_json::to_string` on a `str`: a JSON string literal with
/// the escapes JSON requires. It cannot fail, as it writes to a `Vec`.
#[verifier::external_body]
fn quote(s: &str) -> (r: Result<String, serde_json::Error>)
    ensures
        r is Ok,
        r->Ok_0@ == json_quoted(s@),
{
    serde_json::to_string(s)
}

/// `s` as a JSON string literal.
pub fn json_string(s: &str) -> (r: Result<String, ApiError>)
    ensures
        r is Ok,
        r->Ok_0@ == json_quoted(s@),
{
    match quote(s) {
        Ok(q) => Ok(q),
        Err(e) => Err(ApiError::JsonProcessingError(e)),
    }
}

/// `{"login_id":<login_id>,"password":<password>}`.
pub open spec fn login_body_text(login_id: Seq<char>, password: Seq<char>) -> Seq<char> {
    "{\"login_id\":"@ + json_quoted(login_id) + ",\"password\":"@ + json_quoted(password) + "}"@
}

/// `{"action":"authentication_challenge","data":{"token":<token>},"seq":1}`.
pub open spec fn challenge_text(token: Seq<char>) -> Seq<char> {
    "{\"action\":\"authentication_challenge\",\"data\":{\"token\":"@ + json_quoted(token)
        + "},\"seq\":1}"@
}

/// A JSON string literal for `Some`, `null` for `None`.
pub open spec fn json_optional(s: Option<Seq<char>>) -> Seq<char> {
    match s {
        Some(v) => json_quoted(v),
        None => "null"@,
    }
}

/// `{"channel_id":<channel_id>,"message":<message>,"root_id":<root_id or null>}`.
pub open spec fn post_body_text(body: PostBody) -> Seq<char> {
    "{\"channel_id\":"@ + json_quoted(body.channel_id@) + ",\"message\":"@ + json_quoted(
        body.message@,
    ) + ",\"root_id\":"@ + json_optional(
        match body.root_id {
            Some(r) => Some(r@),
            None => None,
        },
    ) + "}"@
}

/// The body of a login request.
pub fn login_body(login_id: &str, password: &str) -> (r: Result<String, ApiError>)
    ensures
        r is Ok,
        r->Ok_0@ == login_body_text(login_id@, password@),
{
    let l = json_string(login_id)?;
    let p = json_string(password)?;
    let mut s = concat("{\"login_id\":", l.as_str());
    s.append(",\"password\":");
    s.append(p.as_str());
    s.append("}");
    Ok(s)
}

/// The frame that authenticates a WebSocket connection with `token`.
pub fn challenge(token: &str) -> (r: Result<String, ApiError>)
    ensures
        r is Ok,
        r->Ok_0@ == challenge_text(token@),
{
    let t = json_string(token)?;
    let mut s = concat(
        "{\"action\":\"authentication_challenge\",\"data\":{\"token\":",
        t.as_str(),
    );
    s.append("},\"seq\":1}");
    Ok(s)
}

/// The JSON text of a new post's body.
pub fn post_body(body: &PostBody) -> (r: Result<String, ApiError>)
    ensures
        r is Ok,
        r->Ok_0@ == post_body_text(*body),
{
    let c = json_string(body.channel_id.as_str())?;
    let m = json_string(body.message.as_str())?;
    let mut s = concat("{\"channel_id\":", c.as_str());
    s.append(",\"message\":");
    s.append(m.as_str());
    s.append(",\"root_id\":");
    match &body.root_id {
        Some(root) => {
            let q = json_string(root.as_str())?;
            s.append(q.as_str());
        },
        None => {
            s.append("null");
        },
    }
    s.append("}");
    Ok(s)
}

} // verus!
