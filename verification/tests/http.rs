use nakama_rs::api::ApiSession;
use nakama_rs::default_client::{begin_refresh, default_server_key, finish_refresh, map_session};
use nakama_rs::http_adapter::{
    authorization_header, check_response, Authentication, Method, RestHttpAdapter, RestHttpError,
    RestRequest,
};
use nakama_rs::session::Session;
use nakama_rs::web_socket_adapter::WebSocketError;

fn get(urlpath: &str, query_params: &str) -> RestRequest {
    RestRequest {
        authentication: Authentication::Bearer { token: "session token".to_owned() },
        urlpath: urlpath.to_owned(),
        query_params: query_params.to_owned(),
        body: String::new(),
        method: Method::Get,
    }
}

#[test]
fn basic_credentials_are_encoded() {
    let key = Authentication::Basic { username: default_server_key(), password: String::new() };
    assert_eq!(authorization_header(&key), Some("Basic ZGVmYXVsdGtleTo=".to_owned()));
    let user =
        Authentication::Basic { username: "user".to_owned(), password: "pass".to_owned() };
    assert_eq!(authorization_header(&user), Some("Basic dXNlcjpwYXNz".to_owned()));
    let empty = Authentication::Basic { username: String::new(), password: String::new() };
    assert_eq!(authorization_header(&empty), Some("Basic Og==".to_owned()));
    let accents = Authentication::Basic { username: "é".to_owned(), password: "ü".to_owned() };
    assert_eq!(authorization_header(&accents), Some("Basic w6k6w7w=".to_owned()));
}

#[test]
fn a_bearer_token_is_sent_as_it_is() {
    let bearer = Authentication::Bearer { token: "abc.def".to_owned() };
    assert_eq!(authorization_header(&bearer), Some("Bearer abc.def".to_owned()));
}

#[test]
fn the_address_joins_server_port_path_and_query() {
    let adapter = RestHttpAdapter::new("http://127.0.0.1", 7350);
    assert_eq!(
        adapter.url(&get("/v2/account", "")),
        "http://127.0.0.1:7350/v2/account?"
    );
    assert_eq!(
        adapter.url(&get("/v2/account/authenticate/device", "create=true&username=Marot&")),
        "http://127.0.0.1:7350/v2/account/authenticate/device?create=true&username=Marot&"
    );
    assert_eq!(RestHttpAdapter::new("https://example.org", 443).url(&get("/", "a=1")), "https://example.org:443/?a=1");
}

#[test]
fn a_status_of_success_gives_the_body() {
    assert_eq!(check_response(200, "{}".to_owned()), Ok("{}".to_owned()));
    assert_eq!(check_response(204, String::new()), Ok(String::new()));
    assert_eq!(check_response(299, "x".to_owned()), Ok("x".to_owned()));
}

#[test]
fn a_status_from_400_blames_the_client() {
    assert_eq!(
        check_response(400, "bad".to_owned()),
        Err(RestHttpError::ClientError(400, "bad".to_owned()))
    );
    assert_eq!(
        check_response(404, "not found".to_owned()),
        Err(RestHttpError::ClientError(404, "not found".to_owned()))
    );
    assert_eq!(
        check_response(499, String::new()),
        Err(RestHttpError::ClientError(499, String::new()))
    );
}

#[test]
fn a_status_from_500_blames_the_server() {
    assert_eq!(
        check_response(500, "oops".to_owned()),
        Err(RestHttpError::ServerError(500, "oops".to_owned()))
    );
    assert_eq!(
        check_response(u16::MAX, String::new()),
        Err(RestHttpError::ServerError(u16::MAX, String::new()))
    );
}

#[test]
fn any_other_status_is_unknown() {
    for status in [0u16, 100, 199, 300, 301, 399] {
        assert_eq!(
            check_response(status, "body".to_owned()),
            Err(RestHttpError::OtherError("Unknown status".to_owned()))
        );
    }
}

#[test]
fn an_empty_refresh_token_is_none() {
    let session = map_session(ApiSession {
        created: true,
        refresh_token: String::new(),
        token: "auth".to_owned(),
    });
    assert_eq!(session, Session { auth_token: "auth".to_owned(), refresh_token: None });
    let session = map_session(ApiSession {
        created: false,
        refresh_token: "refresh".to_owned(),
        token: "auth".to_owned(),
    });
    assert_eq!(
        session,
        Session { auth_token: "auth".to_owned(), refresh_token: Some("refresh".to_owned()) }
    );
}

#[test]
fn a_session_is_renewed_in_two_steps() {
    let mut session =
        Session { auth_token: "old".to_owned(), refresh_token: Some("refresh".to_owned()) };
    assert_eq!(begin_refresh(&mut session), Some("refresh".to_owned()));
    assert_eq!(session, Session { auth_token: "old".to_owned(), refresh_token: None });
    finish_refresh(
        &mut session,
        ApiSession { created: false, refresh_token: "next".to_owned(), token: "new".to_owned() },
    );
    assert_eq!(
        session,
        Session { auth_token: "new".to_owned(), refresh_token: Some("next".to_owned()) }
    );
    finish_refresh(
        &mut session,
        ApiSession { created: false, refresh_token: String::new(), token: "newer".to_owned() },
    );
    assert_eq!(session, Session { auth_token: "newer".to_owned(), refresh_token: None });
}

#[test]
fn a_session_without_refresh_token_is_not_renewed() {
    let mut session = Session { auth_token: "old".to_owned(), refresh_token: None };
    assert_eq!(begin_refresh(&mut session), None);
    assert_eq!(session, Session { auth_token: "old".to_owned(), refresh_token: None });
}

#[test]
fn transport_errors_have_names() {
    assert_eq!(WebSocketError::IOError.describe(), "IOError");
    assert_eq!(WebSocketError::WSError.describe(), "WSError");
}

#[test]
fn test_list_group_users() {
    let adapter = RestHttpAdapter::new("http://127.0.0.1", 7350);
    let request = get("/v2/group/some%20group/user", "limit=10&");
    assert_eq!(
        adapter.url(&request),
        "http://127.0.0.1:7350/v2/group/some%20group/user?limit=10&"
    );
    assert_eq!(
        authorization_header(&request.authentication),
        Some("Bearer session token".to_owned())
    );
}

#[test]
fn test_list_groups() {
    let adapter = RestHttpAdapter::new("http://127.0.0.1", 7350);
    assert_eq!(
        adapter.url(&get("/v2/group", "name=MyGroup&")),
        "http://127.0.0.1:7350/v2/group?name=MyGroup&"
    );
    assert_eq!(
        check_response(200, "{\"groups\":[]}".to_owned()),
        Ok("{\"groups\":[]}".to_owned())
    );
}

#[test]
fn test_list_current_user_groups() {
    let adapter = RestHttpAdapter::new("http://127.0.0.1", 7350);
    assert_eq!(
        adapter.url(&get("/v2/user/current%20user/group", "")),
        "http://127.0.0.1:7350/v2/user/current%20user/group?"
    );
    assert_eq!(
        check_response(401, "token expired".to_owned()),
        Err(RestHttpError::ClientError(401, "token expired".to_owned()))
    );
}

#[test]
fn test_list_user_groups() {
    let adapter = RestHttpAdapter::new("http://127.0.0.1", 7350);
    assert_eq!(
        adapter.url(&get("/v2/user/other%20user/group", "state=2&limit=5&")),
        "http://127.0.0.1:7350/v2/user/other%20user/group?state=2&limit=5&"
    );
    assert_eq!(
        check_response(503, "busy".to_owned()),
        Err(RestHttpError::ServerError(503, "busy".to_owned()))
    );
}
