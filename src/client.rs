//! Authentication data and the client session.

use crate::errors::ApiError;
use crate::json::{login_body, login_body_text, post_body, post_body_text};
use crate::models::PostBody;
use crate::request::{
    check_header_value, check_method, is_header_value_text, is_method_text, ApiRequest,
};
use crate::text::{
    bool_text, bool_word, concat, decimal, decimal_text, leading_count, lemma_leading_count_bound,
    same_text, trim_leading, trim_start_char,
};
use crate::web_url::{
    http_scheme, https_scheme, is_plain_relative, is_web_scheme, joined_url, parsed_url,
    ws_scheme, wss_scheme, UrlView, WebUrl,
};
use core::time::Duration;
use vstd::prelude::*;

verus! {

/// Authentication data: either a login id and a password, or a personal
/// access token. Exactly one of the two is held.
///
/// Use `from_password` or `from_access_token` to create a value.
#[derive(Debug)]
pub enum AuthenticationData {
    Password { login_id: String, password: String },
    Token { token: String },
}

impl Clone for AuthenticationData {
    fn clone(&self) -> (r: Self)
        ensures
            r == *self,
    {
        match self {
            AuthenticationData::Password { login_id, password } => AuthenticationData::Password {
                login_id: login_id.clone(),
                password: password.clone(),
            },
            AuthenticationData::Token { token } => AuthenticationData::Token { token: token.clone() },
        }
    }
}

impl AuthenticationData {
    /// Creates authentication data from a user's login id and password.
    pub fn from_password(login_id: &str, password: &str) -> (r: Self)
        ensures
            r matches AuthenticationData::Password { login_id: l, password: p }
                && l@ == login_id@ && p@ == password@,
    {
        AuthenticationData::Password {
            login_id: String::from_str(login_id),
            password: String::from_str(password),
        }
    }

    /// Creates authentication data from a user's personal access token.
    ///
    /// Personal access tokens must be enabled per instance by an admin.
    pub fn from_access_token(token: &str) -> (r: Self)
        ensures
            r matches AuthenticationData::Token { token: t } && t@ == token@,
    {
        AuthenticationData::Token { token: String::from_str(token) }
    }

    /// Whether the data holds a login id and password.
    pub fn using_password(&self) -> (r: bool)
        ensures
            r == self is Password,
    {
        matches!(self, AuthenticationData::Password { .. })
    }

    /// Whether the data holds a personal access token.
    pub fn using_token(&self) -> (r: bool)
        ensures
            r == self is Token,
    {
        matches!(self, AuthenticationData::Token { .. })
    }
}

/// The path under which the REST API of an instance lives.
pub const API_PATH: &'static str = "/api/v4/";

/// The path of the login endpoint, below the API path.
pub const LOGIN_ENDPOINT: &'static str = "users/login";

/// The media type of every body the API takes and returns.
pub const JSON_MEDIA_TYPE: &'static str = "application/json";

/// The API path, as characters.
pub open spec fn api_path() -> Seq<char> {
    API_PATH@
}

/// The instance URL a parsed base URL stands for: a root path becomes the
/// API path; any other path is kept as it is.
pub open spec fn normalized(v: UrlView) -> UrlView {
    if v.path == seq!['/'] {
        v.with_path(api_path())
    } else {
        v
    }
}

/// A base URL whose path is the root gets the API path, so that the instance
/// URL ends in it when the base has no query or fragment; a base URL with any
/// other path keeps it unchanged.
pub proof fn lemma_normalized_path(v: UrlView)
    ensures
        v.path == seq!['/'] ==> normalized(v).path == api_path() && normalized(v).text() == v.scheme
            + v.authority + api_path() + v.tail,
        v.path == seq!['/'] && v.tail.len() == 0 ==> normalized(v).text().subrange(
            normalized(v).text().len() - api_path().len(),
            normalized(v).text().len() as int,
        ) == api_path(),
        v.path != seq!['/'] ==> normalized(v) == v,
{
    if v.path == seq!['/'] {
        let t = normalized(v).text();
        assert(t == v.scheme + v.authority + api_path() + v.tail);
        if v.tail.len() == 0 {
            assert(t.subrange(t.len() - api_path().len(), t.len() as int) =~= api_path());
        }
    }
}

/// The URL of the WebSocket API for an instance URL: `http` becomes `ws`,
/// `https` becomes `wss`, any other scheme is kept.
pub open spec fn ws_view(v: UrlView) -> UrlView {
    if v.scheme == http_scheme() {
        v.with_scheme(ws_scheme())
    } else if v.scheme == https_scheme() {
        v.with_scheme(wss_scheme())
    } else {
        v
    }
}

/// An `http` URL becomes a `ws` URL and an `https` URL a `wss` URL, with the
/// same host, port, path and tail.
pub proof fn lemma_ws_scheme(v: UrlView)
    ensures
        v.scheme == http_scheme() ==> ws_view(v).scheme == ws_scheme(),
        v.scheme == https_scheme() ==> ws_view(v).scheme == wss_scheme(),
        ws_view(v).authority == v.authority,
        ws_view(v).path == v.path,
        ws_view(v).tail == v.tail,
{
    assert(http_scheme().len() == 4);
    assert(https_scheme().len() == 5);
}

/// An endpoint is read the same with or without leading slashes.
pub proof fn lemma_leading_slashes_ignored(endpoint: Seq<char>)
    ensures
        trim_leading(seq!['/'] + endpoint, '/') == trim_leading(endpoint, '/'),
{
    let s = seq!['/'] + endpoint;
    assert(s.drop_first() =~= endpoint);
    lemma_leading_count_bound(endpoint, '/');
    assert(leading_count(s, '/') == 1 + leading_count(endpoint, '/'));
    assert(s.skip(leading_count(s, '/') as int) =~= endpoint.skip(leading_count(endpoint, '/') as int));
}

/// The token a session starts with: the personal access token, if that is
/// what the authentication data holds.
pub open spec fn initial_token(a: AuthenticationData) -> Option<Seq<char>> {
    match a {
        AuthenticationData::Token { token } => Some(token@),
        AuthenticationData::Password { .. } => None,
    }
}

/// The headers of every REST call made with `token`.
pub open spec fn standard_headers(token: Seq<char>) -> Seq<(Seq<char>, Seq<char>)> {
    seq![
        ("accept"@, JSON_MEDIA_TYPE@),
        ("content-type"@, JSON_MEDIA_TYPE@),
        ("authorization"@, "Bearer "@ + token),
    ]
}

/// Pairs of strings as pairs of their characters.
pub open spec fn pairs_view(v: Seq<(String, String)>) -> Seq<(Seq<char>, Seq<char>)> {
    v.map_values(|p: (String, String)| (p.0@, p.1@))
}

/// Query parameters given as borrowed pairs, as pairs of their characters.
pub open spec fn query_view(q: Option<&[(&str, &str)]>) -> Seq<(Seq<char>, Seq<char>)> {
    match q {
        Some(s) => s@.map_values(|p: (&str, &str)| (p.0@, p.1@)),
        None => Seq::empty(),
    }
}

/// A query parameter that is present only when it has a value.
pub open spec fn optional_param(name: Seq<char>, value: Option<Seq<char>>) -> Seq<(Seq<char>, Seq<char>)> {
    match value {
        Some(v) => seq![(name, v)],
        None => Seq::empty(),
    }
}

/// A number, if present, in decimal.
pub open spec fn decimal_of(n: Option<u64>) -> Option<Seq<char>> {
    match n {
        Some(v) => Some(decimal(v as nat)),
        None => None,
    }
}

/// A boolean, if present, as `true` or `false`.
pub open spec fn word_of(b: Option<bool>) -> Option<Seq<char>> {
    match b {
        Some(v) => Some(bool_word(v)),
        None => None,
    }
}

/// An optional string slice as its characters.
pub open spec fn str_view(s: Option<&str>) -> Option<Seq<char>> {
    match s {
        Some(t) => Some(t@),
        None => None,
    }
}

/// The query parameters of the call that lists all channels, in order.
pub open spec fn channels_query(
    not_associated_to_group: Option<&str>,
    page: Option<u64>,
    per_page: Option<u64>,
    exclude_default_channels: Option<bool>,
    exclude_policy_constrained: Option<bool>,
) -> Seq<(Seq<char>, Seq<char>)> {
    optional_param("not_associated_to_group"@, str_view(not_associated_to_group))
        + optional_param("page"@, decimal_of(page))
        + optional_param("per_page"@, decimal_of(per_page))
        + optional_param("exclude_default_channels"@, word_of(exclude_default_channels))
        + optional_param("exclude_policy_constrained"@, word_of(exclude_policy_constrained))
}

/// An optional string as its characters.
pub open spec fn string_view(s: Option<String>) -> Option<Seq<char>> {
    match s {
        Some(t) => Some(t@),
        None => None,
    }
}

/// A session with a Mattermost instance.
///
/// Use `new` to create a value.
#[derive(Debug)]
pub struct Mattermost {
    pub(crate) instance_url: WebUrl,
    pub(crate) authentication_data: AuthenticationData,
    pub(crate) auth_token: Option<String>,
    pub(crate) ping_interval: Duration,
}

/// The interval between keep-alive pings unless set otherwise, in seconds.
pub const DEFAULT_PING_INTERVAL_SECS: u64 = 30;

/// Relies on `Duration::from_secs` to build the default ping interval.
pub assume_specification[ Duration::from_secs ](secs: u64) -> Duration;

impl Clone for Mattermost {
    fn clone(&self) -> (r: Self)
        ensures
            r.spec_instance_url() == self.spec_instance_url(),
            r.spec_auth_token() == self.spec_auth_token(),
            r.spec_authentication_data() == self.spec_authentication_data(),
            r.spec_ping_interval() == self.spec_ping_interval(),
    {
        Mattermost {
            instance_url: self.instance_url.clone(),
            authentication_data: self.authentication_data.clone(),
            auth_token: match &self.auth_token {
                Some(t) => Some(t.clone()),
                None => None,
            },
            ping_interval: self.ping_interval,
        }
    }
}

impl Mattermost {
    /// The session's instance URL.
    pub closed spec fn spec_instance_url(&self) -> UrlView {
        self.instance_url@
    }

    /// The bearer token the session holds, if any.
    pub closed spec fn spec_auth_token(&self) -> Option<Seq<char>> {
        string_view(self.auth_token)
    }

    /// The authentication data the session was made with.
    pub closed spec fn spec_authentication_data(&self) -> AuthenticationData {
        self.authentication_data
    }

    /// The interval between keep-alive pings.
    pub closed spec fn spec_ping_interval(&self) -> Duration {
        self.ping_interval
    }

    /// Creates a session with the instance at `instance_url`, the root URL
    /// of the instance. A URL whose path is the root gets the API path.
    pub fn new(instance_url: &str, authentication_data: AuthenticationData) -> (r: Result<
        Self,
        ApiError,
    >)
        ensures
            r is Ok <==> parsed_url(instance_url@) is Some,
            r is Err ==> r->Err_0 is UrlError,
            r is Ok ==> r->Ok_0.spec_instance_url() == normalized(parsed_url(instance_url@)->Some_0),
            r is Ok ==> r->Ok_0.spec_auth_token() == initial_token(authentication_data),
            r is Ok ==> r->Ok_0.spec_authentication_data() == authentication_data,
    {
        let mut url = match WebUrl::parse(instance_url) {
            Ok(u) => u,
            Err(e) => {
                return Err(ApiError::UrlError(e));
            },
        };
        let auth_token = match &authentication_data {
            AuthenticationData::Token { token } => Some(token.clone()),
            AuthenticationData::Password { .. } => None,
        };
        proof {
            reveal_strlit("/");
            reveal_strlit("/api/v4/");
            assert("/"@ =~= seq!['/']);
        }
        if same_text(url.path(), "/") {
            url.set_path(API_PATH);
        }
        Ok(Mattermost {
            instance_url: url,
            authentication_data,
            auth_token,
            ping_interval: Duration::from_secs(DEFAULT_PING_INTERVAL_SECS),
        })
    }

    /// Changes the interval between the pings that keep the WebSocket
    /// connection alive. The default is 30 seconds.
    pub fn with_ping_interval(self, interval: Duration) -> (r: Self)
        ensures
            r.spec_ping_interval() == interval,
            r.spec_instance_url() == self.spec_instance_url(),
            r.spec_auth_token() == self.spec_auth_token(),
            r.spec_authentication_data() == self.spec_authentication_data(),
    {
        Mattermost { ping_interval: interval, ..self }
    }

    /// The interval between keep-alive pings.
    pub fn ping_interval(&self) -> (r: Duration)
        ensures
            r == self.spec_ping_interval(),
    {
        self.ping_interval
    }

    /// The instance URL, under which every endpoint lies.
    pub fn instance_url(&self) -> (r: &WebUrl)
        ensures
            r@ == self.spec_instance_url(),
    {
        &self.instance_url
    }

    /// The bearer token the session holds, if any.
    pub fn auth_token(&self) -> (r: Option<&str>)
        ensures
            r is Some <==> self.spec_auth_token() is Some,
            r is Some ==> r->Some_0@ == self.spec_auth_token()->Some_0,
    {
        match &self.auth_token {
            Some(t) => Some(t.as_str()),
            None => None,
        }
    }

    /// The URL of `endpoint` below the instance URL. Leading slashes of
    /// `endpoint` are dropped, so that it is read relative to the API path.
    ///
    /// A plain endpoint is appended to an instance URL whose path ends in
    /// `/`: the API path is neither lost nor repeated.
    pub fn endpoint_url(&self, endpoint: &str) -> (r: Result<WebUrl, ApiError>)
        ensures
            r is Ok <==> joined_url(self.spec_instance_url(), trim_leading(endpoint@, '/')) is Some,
            r is Ok ==> Some(r->Ok_0@) == joined_url(
                self.spec_instance_url(),
                trim_leading(endpoint@, '/'),
            ),
            r is Err ==> r->Err_0 is UrlError,
            is_web_scheme(self.spec_instance_url().scheme) && self.spec_instance_url().path.len() > 0
                && self.spec_instance_url().path.last() == '/' && is_plain_relative(
                trim_leading(endpoint@, '/'),
            ) ==> r is Ok
                && r->Ok_0@ == self.spec_instance_url().below(trim_leading(endpoint@, '/')),
    {
        match self.instance_url.join(trim_start_char(endpoint, '/')) {
            Ok(u) => Ok(u),
            Err(e) => Err(ApiError::UrlError(e)),
        }
    }

    /// The instance URL with the matching WebSocket scheme: `ws` for `http`,
    /// `wss` for `https`. Host, port and path stay the same.
    pub fn ws_instance_url(&self) -> (r: Result<WebUrl, ApiError>)
        ensures
            r is Ok,
            r->Ok_0@ == ws_view(self.spec_instance_url()),
    {
        let mut url = self.instance_url.clone();
        proof {
            reveal_strlit("http");
            reveal_strlit("https");
            reveal_strlit("ws");
            reveal_strlit("wss");
            assert("http"@ =~= http_scheme());
            assert("https"@ =~= https_scheme());
            assert("ws"@ =~= ws_scheme());
            assert("wss"@ =~= wss_scheme());
        }
        if same_text(url.scheme(), "http") {
            url.set_scheme("ws");
        } else if same_text(url.scheme(), "https") {
            url.set_scheme("wss");
        }
        Ok(url)
    }

    /// The headers of a REST call: JSON accepted and sent, and the bearer
    /// token. Fails without a token, or with one that cannot stand in a
    /// header.
    pub fn request_headers(&self) -> (r: Result<Vec<(String, String)>, ApiError>)
        ensures
            self.spec_auth_token() is None ==> r matches Err(ApiError::MissingAuthToken),
            self.spec_auth_token() is Some ==> {
                let t = self.spec_auth_token()->Some_0;
                &&& is_header_value_text("Bearer "@ + t) ==> r is Ok && pairs_view(r->Ok_0@)
                    == standard_headers(t)
                &&& !is_header_value_text("Bearer "@ + t) ==> r is Err && r->Err_0
                    is ReqwestHeaderValueError
            },
    {
        let token = match &self.auth_token {
            Some(t) => t,
            None => {
                return Err(ApiError::MissingAuthToken);
            },
        };
        let bearer = concat("Bearer ", token.as_str());
        if let Err(e) = check_header_value(bearer.as_str()) {
            return Err(ApiError::ReqwestHeaderValueError(e));
        }
        let headers = vec![
            (String::from_str("accept"), String::from_str(JSON_MEDIA_TYPE)),
            (String::from_str("content-type"), String::from_str(JSON_MEDIA_TYPE)),
            (String::from_str("authorization"), bearer),
        ];
        assert(pairs_view(headers@) =~= standard_headers(token@));
        Ok(headers)
    }

    /// `r` is what a call with `method` on `endpoint`, with `query` and
    /// `body`, comes to: the URL is checked first, then the method, then the
    /// headers; a request with all four follows.
    pub open spec fn made_request(
        &self,
        r: Result<ApiRequest, ApiError>,
        method: Seq<char>,
        endpoint: Seq<char>,
        query: Seq<(Seq<char>, Seq<char>)>,
        body: Option<Seq<char>>,
    ) -> bool {
        let url = joined_url(self.spec_instance_url(), trim_leading(endpoint, '/'));
        let token = self.spec_auth_token();
        if url is None {
            r is Err && r->Err_0 is UrlError
        } else if !is_method_text(method) {
            r is Err && r->Err_0 is HttpMethodError
        } else if token is None {
            r is Err && r->Err_0 is MissingAuthToken
        } else if !is_header_value_text("Bearer "@ + token->Some_0) {
            r is Err && r->Err_0 is ReqwestHeaderValueError
        } else {
            &&& r is Ok
            &&& r->Ok_0.method@ == method
            &&& r->Ok_0.url@ == url->Some_0
            &&& pairs_view(r->Ok_0.headers@) == standard_headers(token->Some_0)
            &&& pairs_view(r->Ok_0.query@) == query
            &&& string_view(r->Ok_0.body) == body
        }
    }

    fn request(&self, method: &str, endpoint: &str, query: Vec<(String, String)>, body: Option<String>) -> (r: Result<ApiRequest, ApiError>)
        ensures
            self.made_request(r, method@, endpoint@, pairs_view(query@), string_view(body)),
    {
        let url = self.endpoint_url(endpoint)?;
        if let Err(e) = check_method(method) {
            return Err(ApiError::HttpMethodError(e));
        }
        let headers = self.request_headers()?;
        Ok(ApiRequest { method: String::from_str(method), url, headers, query, body })
    }

    /// The request that exchanges the login id and password for a session
    /// token: a POST of `{"login_id":..,"password":..}` to the login endpoint.
    /// With a personal access token there is nothing to exchange: `None`.
    pub fn login_request(&self) -> (r: Result<Option<ApiRequest>, ApiError>)
        ensures
            self.spec_authentication_data() is Token ==> r == Ok::<Option<ApiRequest>, ApiError>(
                None,
            ),
            self.spec_authentication_data() matches AuthenticationData::Password {
                login_id,
                password,
            } ==> {
                let url = joined_url(self.spec_instance_url(), LOGIN_ENDPOINT@);
                &&& url is None ==> r is Err && r->Err_0 is UrlError
                &&& url is Some ==> r is Ok && r->Ok_0 is Some && {
                    let q = r->Ok_0->Some_0;
                    &&& q.method@ == "POST"@
                    &&& q.url@ == url->Some_0
                    &&& pairs_view(q.headers@) == seq![("content-type"@, JSON_MEDIA_TYPE@)]
                    &&& q.query@.len() == 0
                    &&& string_view(q.body) == Some(login_body_text(login_id@, password@))
                }
            },
    {
        match &self.authentication_data {
            AuthenticationData::Token { .. } => Ok(None),
            AuthenticationData::Password { login_id, password } => {
                let url = match self.instance_url.join(LOGIN_ENDPOINT) {
                    Ok(u) => u,
                    Err(e) => {
                        return Err(ApiError::UrlError(e));
                    },
                };
                let body = login_body(login_id.as_str(), password.as_str())?;
                let headers = vec![(String::from_str("content-type"), String::from_str(JSON_MEDIA_TYPE))];
                assert(pairs_view(headers@) =~= seq![("content-type"@, JSON_MEDIA_TYPE@)]);
                Ok(Some(ApiRequest { method: String::from_str("POST"), url, headers, query: Vec::new(), body: Some(body) }))
            },
        }
    }

    /// Stores the session token of a login response with `status`, whose
    /// `Token` header is `token_header` (absent, or read as text or not).
    /// With a personal access token this does nothing.
    pub fn store_session_token(
        &mut self,
        status: u16,
        token_header: Option<Result<String, http::header::ToStrError>>,
    ) -> (r: Result<(), ApiError>)
        ensures
            final(self).spec_instance_url() == old(self).spec_instance_url(),
            final(self).spec_authentication_data() == old(self).spec_authentication_data(),
            final(self).spec_ping_interval() == old(self).spec_ping_interval(),
            old(self).spec_authentication_data() is Token ==> r is Ok && final(self).spec_auth_token()
                == old(self).spec_auth_token(),
            old(self).spec_authentication_data() is Password ==> match token_header {
                None => r is Err && r->Err_0 == ApiError::CouldNotGetToken(status)
                    && final(self).spec_auth_token() == old(self).spec_auth_token(),
                Some(Err(e)) => r is Err && r->Err_0 == ApiError::ReqwestHeaderError(e)
                    && final(self).spec_auth_token() == old(self).spec_auth_token(),
                Some(Ok(t)) => r is Ok && final(self).spec_auth_token() == Some(t@),
            },
    {
        if self.authentication_data.using_token() {
            return Ok(());
        }
        match token_header {
            None => Err(ApiError::CouldNotGetToken(status)),
            Some(Err(e)) => Err(ApiError::ReqwestHeaderError(e)),
            Some(Ok(t)) => {
                self.auth_token = Some(t);
                Ok(())
            },
        }
    }

    /// A request to the REST API: `method` on `endpoint` (relative to the
    /// API path), with the query parameters and the raw body given.
    pub fn query(&self, method: &str, endpoint: &str, query: Option<&[(&str, &str)]>, body: Option<&str>) -> (r: Result<ApiRequest, ApiError>)
        ensures
            self.made_request(r, method@, endpoint@, query_view(query), str_view(body)),
    {
        let mut pairs: Vec<(String, String)> = Vec::new();
        if let Some(q) = query {
            let mut i: usize = 0;
            while i < q.len()
                invariant
                    i <= q@.len(),
                    pairs@.len() == i,
                    pairs_view(pairs@) =~= q@.subrange(0, i as int).map_values(
                        |p: (&str, &str)| (p.0@, p.1@),
                    ),
                decreases q@.len() - i,
            {
                let (k, v) = q[i];
                let ghost before = pairs@;
                pairs.push((String::from_str(k), String::from_str(v)));
                assert(q@.subrange(0, i + 1) =~= q@.subrange(0, i as int).push(q@[i as int]));
                assert(pairs_view(pairs@) =~= pairs_view(before).push((k@, v@)));
                i = i + 1;
            }
            assert(q@.subrange(0, q@.len() as int) =~= q@);
        } else {
            assert(pairs_view(pairs@) =~= Seq::empty());
        }
        let owned = match body {
            Some(b) => Some(String::from_str(b)),
            None => None,
        };
        self.request(method, endpoint, pairs, owned)
    }

    /// A POST request with a JSON body, already written as text.
    pub fn post(&self, endpoint: &str, query: Option<&[(&str, &str)]>, body: &str) -> (r: Result<ApiRequest, ApiError>)
        ensures
            self.made_request(r, "POST"@, endpoint@, query_view(query), Some(body@)),
    {
        self.query("POST", endpoint, query, Some(body))
    }

    // Endpoints: each builds the request of one call of the REST API.

    /// A team's information: GET `teams/{id}`.
    pub fn get_team(&self, id: &str) -> (r: Result<ApiRequest, ApiError>)
        ensures
            self.made_request(r, "GET"@, "teams/"@ + id@, Seq::empty(), None),
    {
        let endpoint = concat("teams/", id);
        self.request("GET", endpoint.as_str(), no_params(), None)
    }

    /// A team's information by its name: GET `teams/name/{name}`.
    pub fn get_team_by_name(&self, name: &str) -> (r: Result<ApiRequest, ApiError>)
        ensures
            self.made_request(r, "GET"@, "teams/name/"@ + name@, Seq::empty(), None),
    {
        let endpoint = concat("teams/name/", name);
        self.request("GET", endpoint.as_str(), no_params(), None)
    }

    /// The teams that are open or, with the "manage_system" permission,
    /// exist: GET `teams`.
    pub fn get_teams(&self) -> (r: Result<ApiRequest, ApiError>)
        ensures
            self.made_request(r, "GET"@, "teams"@, Seq::empty(), None),
    {
        self.request("GET", "teams", no_params(), None)
    }

    /// Unread messages and mentions of a user in all their teams:
    /// GET `users/{user_id}/teams/unread`.
    pub fn get_team_unreads_for(&self, user_id: &str) -> (r: Result<ApiRequest, ApiError>)
        ensures
            self.made_request(r, "GET"@, "users/"@ + user_id@ + "/teams/unread"@, Seq::empty(), None),
    {
        let mut endpoint = concat("users/", user_id);
        endpoint.append("/teams/unread");
        self.request("GET", endpoint.as_str(), no_params(), None)
    }

    /// Unread messages and mentions of a user in one team:
    /// GET `users/{user_id}/teams/{team_id}/unread`.
    ///
    /// Requires either the "read_channel" or "edit_other_users" permission.
    pub fn get_team_unreads_for_in(&self, user_id: &str, team_id: &str) -> (r: Result<
        ApiRequest,
        ApiError,
    >)
        ensures
            self.made_request(
                r,
                "GET"@,
                "users/"@ + user_id@ + "/teams/"@ + team_id@ + "/unread"@,
                Seq::empty(),
                None,
            ),
    {
        let mut endpoint = concat("users/", user_id);
        endpoint.append("/teams/");
        endpoint.append(team_id);
        endpoint.append("/unread");
        self.request("GET", endpoint.as_str(), no_params(), None)
    }

    /// All channels on the instance: GET `channels`, with a query parameter
    /// for each filter given, in this order.
    ///
    /// Requires the "manage_system" permission.
    pub fn get_all_channels(
        &self,
        not_associated_to_group: Option<&str>,
        page: Option<u64>,
        per_page: Option<u64>,
        exclude_default_channels: Option<bool>,
        exclude_policy_constrained: Option<bool>,
    ) -> (r: Result<ApiRequest, ApiError>)
        ensures
            self.made_request(
                r,
                "GET"@,
                "channels"@,
                channels_query(
                    not_associated_to_group,
                    page,
                    per_page,
                    exclude_default_channels,
                    exclude_policy_constrained,
                ),
                None,
            ),
    {
        let mut query = no_params();
        if let Some(v) = not_associated_to_group {
            push_param(&mut query, "not_associated_to_group", String::from_str(v));
        }
        let ghost q1 = pairs_view(query@);
        if let Some(v) = page {
            push_param(&mut query, "page", decimal_text(v));
        }
        let ghost q2 = pairs_view(query@);
        if let Some(v) = per_page {
            push_param(&mut query, "per_page", decimal_text(v));
        }
        let ghost q3 = pairs_view(query@);
        if let Some(v) = exclude_default_channels {
            push_param(&mut query, "exclude_default_channels", bool_text(v));
        }
        let ghost q4 = pairs_view(query@);
        if let Some(v) = exclude_policy_constrained {
            push_param(&mut query, "exclude_policy_constrained", bool_text(v));
        }
        proof {
            assert(q1 =~= optional_param("not_associated_to_group"@, str_view(not_associated_to_group)));
            assert(q2 =~= q1 + optional_param("page"@, decimal_of(page)));
            assert(q3 =~= q2 + optional_param("per_page"@, decimal_of(per_page)));
            assert(q4 =~= q3 + optional_param("exclude_default_channels"@, word_of(exclude_default_channels)));
            assert(pairs_view(query@) =~= q4 + optional_param(
                "exclude_policy_constrained"@,
                word_of(exclude_policy_constrained),
            ));
        }
        self.request("GET", "channels", query, None)
    }

    /// A channel's information: GET `channels/{channel_id}`.
    ///
    /// Requires the "read_channel" permission for that channel.
    pub fn get_channel(&self, channel_id: &str) -> (r: Result<ApiRequest, ApiError>)
        ensures
            self.made_request(r, "GET"@, "channels/"@ + channel_id@, Seq::empty(), None),
    {
        let endpoint = concat("channels/", channel_id);
        self.request("GET", endpoint.as_str(), no_params(), None)
    }

    /// The public channels of a team: GET `teams/{team_id}/channels`.
    ///
    /// Requires the "list_team_channels" permission.
    pub fn get_public_channels(&self, team_id: &str) -> (r: Result<ApiRequest, ApiError>)
        ensures
            self.made_request(r, "GET"@, "teams/"@ + team_id@ + "/channels"@, Seq::empty(), None),
    {
        let mut endpoint = concat("teams/", team_id);
        endpoint.append("/channels");
        self.request("GET", endpoint.as_str(), no_params(), None)
    }

    /// A new post from `body`: POST `posts` with the body as JSON.
    ///
    /// Requires the "create_post" permission for the post's channel.
    pub fn create_post(&self, body: &PostBody) -> (r: Result<ApiRequest, ApiError>)
        ensures
            self.made_request(r, "POST"@, "posts"@, Seq::empty(), Some(post_body_text(*body))),
    {
        let json = post_body(body)?;
        self.request("POST", "posts", no_params(), Some(json))
    }
}

/// No query parameters.
fn no_params() -> (r: Vec<(String, String)>)
    ensures
        pairs_view(r@) == Seq::<(Seq<char>, Seq<char>)>::empty(),
{
    let v: Vec<(String, String)> = Vec::new();
    assert(pairs_view(v@) =~= Seq::empty());
    v
}

/// Appends the query parameter `name=value`.
fn push_param(query: &mut Vec<(String, String)>, name: &str, value: String)
    ensures
        pairs_view(final(query)@) == pairs_view(old(query)@).push((name@, value@)),
{
    let ghost before = query@;
    query.push((String::from_str(name), value));
    assert(pairs_view(query@) =~= pairs_view(before).push((name@, value@)));
}

} // verus!
