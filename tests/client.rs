use mattermost_api::client::{AuthenticationData, Mattermost};
use mattermost_api::errors::ApiError;
use mattermost_api::models::PostBody;
use mattermost_api::request::ApiRequest;

fn token_client(url: &str) -> Mattermost {
    Mattermost::new(url, AuthenticationData::from_access_token("x")).unwrap()
}

fn pairs(v: &[(String, String)]) -> Vec<(&str, &str)> {
    v.iter().map(|(a, b)| (a.as_str(), b.as_str())).collect()
}

#[test]
fn invalid_instance_url_fails_fast() {
    let Err(err) = Mattermost::new("herp derp", AuthenticationData::from_access_token("x"))
    else {
        panic!("Expected an error")
    };

    assert!(matches!(err, ApiError::UrlError(_)))
}

#[test]
fn api_v4_path_is_added_by_default() {
    let client = Mattermost::new(
        "http://www.mattermost.com",
        AuthenticationData::from_access_token("x"),
    )
    .expect("This should work");

    assert_eq!(
        client.instance_url().as_string(),
        "http://www.mattermost.com/api/v4/"
    )
}

#[test]
fn api_path_can_be_overridden() {
    let client = Mattermost::new(
        "http://www.mattermost.com/ipa/v5/",
        AuthenticationData::from_access_token("x"),
    )
    .expect("This should work");

    assert_eq!(
        client.instance_url().as_string(),
        "http://www.mattermost.com/ipa/v5/"
    )
}

#[test]
fn http_urls_are_properly_converted_to_ws_urls() {
    let http_client = Mattermost::new(
        "http://www.mattermost.com",
        AuthenticationData::from_access_token("x"),
    )
    .unwrap();
    assert_eq!(
        http_client.ws_instance_url().unwrap().as_string(),
        "ws://www.mattermost.com/api/v4/"
    );

    let https_client = Mattermost::new(
        "https://www.mattermost.com/",
        AuthenticationData::from_access_token("x"),
    )
    .unwrap();
    assert_eq!(
        https_client.ws_instance_url().unwrap().as_string(),
        "wss://www.mattermost.com/api/v4/"
    );
}

#[test]
fn endpoint_urls_are_joined_as_expected() {
    let client = Mattermost::new(
        "https://www.mattermost.com",
        AuthenticationData::from_access_token("x"),
    )
    .unwrap();

    assert_eq!(
        client.endpoint_url("/herp/derp").unwrap().as_string(),
        "https://www.mattermost.com/api/v4/herp/derp",
    );
}

#[test]
fn end_to_end_token_session_urls() {
    let client = Mattermost::new("http://host", AuthenticationData::from_access_token("abc")).unwrap();
    assert_eq!(client.instance_url().as_string(), "http://host/api/v4/");
    assert_eq!(client.ws_instance_url().unwrap().as_string(), "ws://host/api/v4/");
    assert_eq!(client.endpoint_url("/foo").unwrap().as_string(), "http://host/api/v4/foo");
    assert_eq!(client.auth_token(), Some("abc"));
}

#[test]
fn endpoint_with_and_without_leading_slash_agree() {
    let client = token_client("https://chat.example.com");
    let a = client.endpoint_url("teams/abc").unwrap().as_string();
    let b = client.endpoint_url("/teams/abc").unwrap().as_string();
    let c = client.endpoint_url("///teams/abc").unwrap().as_string();
    assert_eq!(a, "https://chat.example.com/api/v4/teams/abc");
    assert_eq!(a, b);
    assert_eq!(a, c);
}

#[test]
fn root_path_with_query_keeps_query_and_join_drops_it() {
    let client = token_client("http://host/?a=1");
    assert_eq!(client.instance_url().as_string(), "http://host/api/v4/?a=1");
    assert_eq!(client.instance_url().path(), "/api/v4/");
    assert_eq!(client.endpoint_url("x").unwrap().as_string(), "http://host/api/v4/x");
}

#[test]
fn custom_path_without_trailing_slash_is_kept() {
    let client = token_client("http://host/ipa/v5");
    assert_eq!(client.instance_url().as_string(), "http://host/ipa/v5");
    assert_eq!(client.endpoint_url("foo").unwrap().as_string(), "http://host/ipa/foo");
}

#[test]
fn ports_survive_the_websocket_scheme() {
    let client = token_client("https://host:8443");
    assert_eq!(client.ws_instance_url().unwrap().as_string(), "wss://host:8443/api/v4/");
    let plain = token_client("http://host:8065/");
    assert_eq!(plain.ws_instance_url().unwrap().as_string(), "ws://host:8065/api/v4/");
    let other = token_client("ftp://host/");
    assert_eq!(other.ws_instance_url().unwrap().scheme(), "ftp");
}

#[test]
fn credentials_report_their_kind() {
    let p = AuthenticationData::from_password("me@example.com", "pw");
    assert!(p.using_password());
    assert!(!p.using_token());
    let t = AuthenticationData::from_access_token("abc");
    assert!(t.using_token());
    assert!(!t.using_password());
}

#[test]
fn token_credentials_make_login_a_no_op() {
    let mut client = Mattermost::new("http://host", AuthenticationData::from_access_token("abc")).unwrap();
    assert!(matches!(client.login_request(), Ok(None)));
    assert!(client.store_session_token(200, None).is_ok());
    assert_eq!(client.auth_token(), Some("abc"));
    assert!(client.store_session_token(200, Some(Ok("other".to_string()))).is_ok());
    assert_eq!(client.auth_token(), Some("abc"));
}

#[test]
fn login_request_posts_the_credentials() {
    let client = Mattermost::new(
        "http://host",
        AuthenticationData::from_password("me@example.com", "p\"w"),
    )
    .unwrap();
    assert_eq!(client.auth_token(), None);
    let req = client.login_request().unwrap().unwrap();
    assert_eq!(req.method, "POST");
    assert_eq!(req.url.as_string(), "http://host/api/v4/users/login");
    assert_eq!(req.body.as_deref(), Some("{\"login_id\":\"me@example.com\",\"password\":\"p\\\"w\"}"));
    assert_eq!(pairs(&req.headers), vec![("content-type", "application/json")]);
    assert!(req.query.is_empty());
}

#[test]
fn login_response_token_is_stored() {
    let mut client =
        Mattermost::new("http://host", AuthenticationData::from_password("me", "pw")).unwrap();
    assert!(client.store_session_token(200, Some(Ok("session-token".to_string()))).is_ok());
    assert_eq!(client.auth_token(), Some("session-token"));
}

#[test]
fn login_response_without_token_fails_with_status() {
    let mut client =
        Mattermost::new("http://host", AuthenticationData::from_password("me", "pw")).unwrap();
    let err = client.store_session_token(401, None).unwrap_err();
    assert!(matches!(err, ApiError::CouldNotGetToken(401)));
    assert_eq!(client.auth_token(), None);
}

#[test]
fn login_response_with_unreadable_token_fails() {
    let mut client =
        Mattermost::new("http://host", AuthenticationData::from_password("me", "pw")).unwrap();
    let bad = http::HeaderValue::from_bytes(b"caf\xe9").unwrap().to_str().unwrap_err();
    let err = client.store_session_token(200, Some(Err(bad))).unwrap_err();
    assert!(matches!(err, ApiError::ReqwestHeaderError(_)));
    assert_eq!(client.auth_token(), None);
}

#[test]
fn headers_need_a_token() {
    let client = Mattermost::new("http://host", AuthenticationData::from_password("me", "pw")).unwrap();
    assert!(matches!(client.request_headers(), Err(ApiError::MissingAuthToken)));
    assert!(matches!(client.get_teams(), Err(ApiError::MissingAuthToken)));
}

#[test]
fn headers_carry_the_bearer_token() {
    let client = Mattermost::new("http://host", AuthenticationData::from_access_token("abc")).unwrap();
    let headers = client.request_headers().unwrap();
    assert_eq!(
        pairs(&headers),
        vec![
            ("accept", "application/json"),
            ("content-type", "application/json"),
            ("authorization", "Bearer abc"),
        ]
    );
}

#[test]
fn token_that_cannot_be_a_header_is_refused() {
    let client =
        Mattermost::new("http://host", AuthenticationData::from_access_token("a\nb")).unwrap();
    assert!(matches!(client.request_headers(), Err(ApiError::ReqwestHeaderValueError(_))));
    let tab = Mattermost::new("http://host", AuthenticationData::from_access_token("a\tb")).unwrap();
    assert!(tab.request_headers().is_ok());
}

#[test]
fn query_builds_the_full_request() {
    let client = token_client("http://host");
    let params = [("page", "2"), ("q", "a b")];
    let req: ApiRequest = client.query("PUT", "/teams/t1", Some(&params), Some("{}")).unwrap();
    assert_eq!(req.method, "PUT");
    assert_eq!(req.url.as_string(), "http://host/api/v4/teams/t1");
    assert_eq!(pairs(&req.query), vec![("page", "2"), ("q", "a b")]);
    assert_eq!(req.body.as_deref(), Some("{}"));
    assert_eq!(req.headers.len(), 3);
    let bare = client.query("GET", "teams", None, None).unwrap();
    assert!(bare.query.is_empty());
    assert_eq!(bare.body, None);
}

#[test]
fn invalid_method_is_refused() {
    let client = token_client("http://host");
    assert!(matches!(client.query("GE T", "teams", None, None), Err(ApiError::HttpMethodError(_))));
    assert!(matches!(client.query("", "teams", None, None), Err(ApiError::HttpMethodError(_))));
    assert!(client.query("PROPFIND", "teams", None, None).is_ok());
}

#[test]
fn post_sends_the_json_body() {
    let client = token_client("http://host");
    let req = client.post("posts", None, "{\"a\":1}").unwrap();
    assert_eq!(req.method, "POST");
    assert_eq!(req.url.as_string(), "http://host/api/v4/posts");
    assert_eq!(req.body.as_deref(), Some("{\"a\":1}"));
}

#[test]
fn endpoints_map_to_their_paths() {
    let client = token_client("http://host");
    let url = |r: Result<ApiRequest, ApiError>| r.unwrap().url.as_string();
    assert_eq!(url(client.get_team("t1")), "http://host/api/v4/teams/t1");
    assert_eq!(url(client.get_team_by_name("devs")), "http://host/api/v4/teams/name/devs");
    assert_eq!(url(client.get_teams()), "http://host/api/v4/teams");
    assert_eq!(url(client.get_team_unreads_for("u1")), "http://host/api/v4/users/u1/teams/unread");
    assert_eq!(
        url(client.get_team_unreads_for_in("u1", "t1")),
        "http://host/api/v4/users/u1/teams/t1/unread"
    );
    assert_eq!(url(client.get_channel("c1")), "http://host/api/v4/channels/c1");
    assert_eq!(url(client.get_public_channels("t1")), "http://host/api/v4/teams/t1/channels");
    assert_eq!(client.get_team("t1").unwrap().method, "GET");
}

#[test]
fn all_channels_query_has_the_given_filters_in_order() {
    let client = token_client("http://host");
    let req = client.get_all_channels(Some("g1"), Some(0), Some(18446744073709551615), Some(true), Some(false)).unwrap();
    assert_eq!(req.url.as_string(), "http://host/api/v4/channels");
    assert_eq!(
        pairs(&req.query),
        vec![
            ("not_associated_to_group", "g1"),
            ("page", "0"),
            ("per_page", "18446744073709551615"),
            ("exclude_default_channels", "true"),
            ("exclude_policy_constrained", "false"),
        ]
    );
    let some = client.get_all_channels(None, Some(305), None, None, Some(true)).unwrap();
    assert_eq!(pairs(&some.query), vec![("page", "305"), ("exclude_policy_constrained", "true")]);
    let none = client.get_all_channels(None, None, None, None, None).unwrap();
    assert!(none.query.is_empty());
}

#[test]
fn create_post_writes_the_body_as_json() {
    let client = token_client("http://host");
    let body = PostBody {
        channel_id: "c1".to_string(),
        message: "say \"hi\"\n".to_string(),
        root_id: None,
    };
    let req = client.create_post(&body).unwrap();
    assert_eq!(req.method, "POST");
    assert_eq!(req.url.as_string(), "http://host/api/v4/posts");
    assert_eq!(
        req.body.as_deref(),
        Some("{\"channel_id\":\"c1\",\"message\":\"say \\\"hi\\\"\\n\",\"root_id\":null}")
    );
    let reply = PostBody { channel_id: "c1".to_string(), message: "ok".to_string(), root_id: Some("p0".to_string()) };
    assert_eq!(
        client.create_post(&reply).unwrap().body.as_deref(),
        Some("{\"channel_id\":\"c1\",\"message\":\"ok\",\"root_id\":\"p0\"}")
    );
}

#[test]
fn ping_interval_defaults_to_thirty_seconds() {
    let client = token_client("http://host");
    assert_eq!(client.ping_interval(), std::time::Duration::from_secs(30));
    let changed = client.with_ping_interval(std::time::Duration::from_millis(1500));
    assert_eq!(changed.ping_interval(), std::time::Duration::from_millis(1500));
    assert_eq!(changed.instance_url().as_string(), "http://host/api/v4/");
}
