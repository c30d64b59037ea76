use upenv_api::auth::{access_token, bearer_token, confirm_caller, current_user, current_user_of, require_auth, AccessToken};
use upenv_api::error::ApiError;
use upenv_api::models::{CurrentUser, Deleted, NewDevice, SupabaseUser};
use upenv_api::supabase::{ForkCountBody, Header, Method, RestReply, SupabaseClient};

const USER: u128 = 0x67e55044_10b1_426f_9247_bb680e5fe0c8;

fn header(name: &str, value: &str) -> Header {
    Header { name: name.to_string(), value: value.to_string() }
}

fn client() -> SupabaseClient {
    SupabaseClient::new("https://demo.supabase.co//".to_string(), "anon-key".to_string())
}

#[test]
fn bearer_token_is_taken_and_trimmed() {
    let token = bearer_token(Some(b"Bearer  abc.def \t")).unwrap();
    assert_eq!(token, AccessToken("abc.def".to_string()));
}

#[test]
fn bearer_token_keeps_inner_spaces() {
    let token = bearer_token(Some(b"Bearer a b")).unwrap();
    assert_eq!(token.0, "a b");
}

#[test]
fn missing_header_is_unauthorized() {
    assert_eq!(bearer_token(None), Err(ApiError::Unauthorized));
}

#[test]
fn other_scheme_is_unauthorized() {
    assert_eq!(bearer_token(Some(b"Basic abc")), Err(ApiError::Unauthorized));
    assert_eq!(bearer_token(Some(b"bearer abc")), Err(ApiError::Unauthorized));
    assert_eq!(bearer_token(Some(b"Bearerabc")), Err(ApiError::Unauthorized));
}

#[test]
fn blank_token_is_unauthorized() {
    assert_eq!(bearer_token(Some(b"Bearer ")), Err(ApiError::Unauthorized));
    assert_eq!(bearer_token(Some(b"Bearer  \t ")), Err(ApiError::Unauthorized));
    assert_eq!(bearer_token(Some(b"Bear")), Err(ApiError::Unauthorized));
}

#[test]
fn non_visible_header_is_unauthorized() {
    assert_eq!(bearer_token(Some(b"Bearer abc\x7f")), Err(ApiError::Unauthorized));
    assert_eq!(bearer_token(Some("Bearer ab\u{e9}".as_bytes())), Err(ApiError::Unauthorized));
    assert_eq!(bearer_token(Some(b"Bearer ab\ncd")), Err(ApiError::Unauthorized));
}

#[test]
fn current_user_copies_the_auth_user() {
    let user = current_user_of(SupabaseUser { id: USER, email: Some("a@b.c".to_string()) });
    assert_eq!(user, CurrentUser { id: USER, email: Some("a@b.c".to_string()) });
}

#[test]
fn new_client_drops_trailing_slashes() {
    let request = client().authenticate_request("tok");
    assert_eq!(request.url, "https://demo.supabase.co/auth/v1/user");
}

#[test]
fn authenticate_request_forwards_token_and_key() {
    let request = client().authenticate_request("tok");
    assert_eq!(request.method, Method::Get);
    assert_eq!(request.headers, vec![header("authorization", "Bearer tok"), header("apikey", "anon-key")]);
    assert_eq!(request.body, None);
}

#[test]
fn authenticate_result_accepts_success() {
    let user = SupabaseUser { id: USER, email: None };
    let reply = RestReply::Answered { status: 200, text: String::new(), parsed: Ok(user.clone()) };
    assert_eq!(SupabaseClient::authenticate_result(reply), Ok(user));
}

#[test]
fn authenticate_result_refuses_failures() {
    let user = SupabaseUser { id: USER, email: None };
    let refused = RestReply::Answered { status: 401, text: "no".to_string(), parsed: Ok(user) };
    assert_eq!(SupabaseClient::authenticate_result(refused), Err(ApiError::Unauthorized));
    let unreadable: RestReply<SupabaseUser> =
        RestReply::Answered { status: 200, text: "x".to_string(), parsed: Err("bad json".to_string()) };
    assert_eq!(SupabaseClient::authenticate_result(unreadable), Err(ApiError::Unauthorized));
    let unsent: RestReply<SupabaseUser> = RestReply::Unsent("timeout".to_string());
    assert_eq!(SupabaseClient::authenticate_result(unsent), Err(ApiError::Unauthorized));
}

#[test]
fn get_request_builds_rest_url_and_headers() {
    let request = client().get("/devices?select=*", "tok");
    assert_eq!(request.method, Method::Get);
    assert_eq!(request.url, "https://demo.supabase.co/rest/v1/devices?select=*");
    assert_eq!(
        request.headers,
        vec![
            header("authorization", "Bearer tok"),
            header("apikey", "anon-key"),
            header("content-type", "application/json"),
        ]
    );
}

#[test]
fn leading_slashes_of_a_path_do_not_matter() {
    let c = client();
    assert_eq!(c.get("///backups", "t").url, c.get("backups", "t").url);
}

#[test]
fn post_request_asks_for_representation() {
    let request = client().post("devices", "tok", 5u8);
    assert_eq!(request.method, Method::Post);
    assert_eq!(request.body, Some(5u8));
    assert_eq!(request.headers.last(), Some(&header("prefer", "return=representation")));
    assert_eq!(request.headers.len(), 4);
}

#[test]
fn delete_request_has_no_body() {
    let request = client().delete("devices?id=eq.1", "tok");
    assert_eq!(request.method, Method::Delete);
    assert_eq!(request.url, "https://demo.supabase.co/rest/v1/devices?id=eq.1");
    assert_eq!(request.body, None);
    assert_eq!(request.headers.len(), 3);
}

#[test]
fn rest_result_reads_success() {
    let reply = RestReply::Answered { status: 201, text: String::new(), parsed: Ok(vec![1, 2]) };
    assert_eq!(SupabaseClient::rest_result(reply), Ok(vec![1, 2]));
}

#[test]
fn rest_result_reports_status_text() {
    let reply: RestReply<Vec<u8>> =
        RestReply::Answered { status: 409, text: "conflict".to_string(), parsed: Ok(vec![]) };
    assert_eq!(SupabaseClient::rest_result(reply), Err(ApiError::Supabase("conflict".to_string())));
    let reply: RestReply<Vec<u8>> =
        RestReply::Answered { status: 300, text: "moved".to_string(), parsed: Ok(vec![]) };
    assert_eq!(SupabaseClient::rest_result(reply), Err(ApiError::Supabase("moved".to_string())));
}

#[test]
fn rest_result_reports_parse_and_transport_errors() {
    let reply: RestReply<u8> =
        RestReply::Answered { status: 200, text: String::new(), parsed: Err("eof".to_string()) };
    assert_eq!(SupabaseClient::rest_result(reply), Err(ApiError::Supabase("eof".to_string())));
    let reply: RestReply<u8> = RestReply::Unsent("dns".to_string());
    assert_eq!(SupabaseClient::rest_result(reply), Err(ApiError::Supabase("dns".to_string())));
}

#[test]
fn lookup_requests_name_the_row() {
    let c = client();
    let request = c.get_backup_by_id(USER, "tok");
    assert_eq!(
        request.url,
        "https://demo.supabase.co/rest/v1/backups?id=eq.67e55044-10b1-426f-9247-bb680e5fe0c8&select=*"
    );
    assert_eq!(request.headers, vec![header("apikey", "anon-key"), header("authorization", "Bearer tok")]);
    let request = c.get_device_by_id(1, "tok");
    assert_eq!(
        request.url,
        "https://demo.supabase.co/rest/v1/devices?id=eq.00000000-0000-0000-0000-000000000001&select=*"
    );
}

#[test]
fn lookup_result_takes_first_row_whatever_the_status() {
    let reply = RestReply::Answered { status: 404, text: String::new(), parsed: Ok(vec![7, 8]) };
    assert_eq!(SupabaseClient::lookup_result(reply), Ok(Some(7)));
    let reply: RestReply<Vec<u8>> = RestReply::Answered { status: 200, text: String::new(), parsed: Ok(vec![]) };
    assert_eq!(SupabaseClient::lookup_result(reply), Ok(None));
    let reply: RestReply<Vec<u8>> = RestReply::Unsent("down".to_string());
    assert_eq!(SupabaseClient::lookup_result(reply), Err(ApiError::Supabase("down".to_string())));
}

#[test]
fn increment_fork_count_uses_the_anon_key_only() {
    let request = client().increment_fork_count(2);
    assert_eq!(request.method, Method::Post);
    assert_eq!(request.url, "https://demo.supabase.co/rest/v1/rpc/increment_fork_count");
    assert_eq!(request.headers, vec![header("apikey", "anon-key")]);
    assert_eq!(request.body, Some(ForkCountBody { backup_id: 2 }));
}

#[test]
fn error_status_codes() {
    assert_eq!(ApiError::Unauthorized.status_code(), 401);
    assert_eq!(ApiError::BadRequest(String::new()).status_code(), 400);
    assert_eq!(ApiError::Forbidden(String::new()).status_code(), 403);
    assert_eq!(ApiError::NotFound(String::new()).status_code(), 404);
    assert_eq!(ApiError::Supabase(String::new()).status_code(), 502);
    assert_eq!(ApiError::Internal.status_code(), 500);
}

#[test]
fn stored_caller_and_token_are_found() {
    let mut extensions = http::Extensions::new();
    assert_eq!(current_user(&extensions), Err(ApiError::Unauthorized));
    assert_eq!(access_token(&extensions), Err(ApiError::Unauthorized));
    let user = CurrentUser { id: USER, email: None };
    extensions.insert(user.clone());
    extensions.insert(AccessToken("tok".to_string()));
    assert_eq!(current_user(&extensions), Ok(&user));
    assert_eq!(access_token(&extensions), Ok(&AccessToken("tok".to_string())));
}

#[test]
fn delete_accepts_an_empty_success_reply() {
    let reply: RestReply<serde_json::Value> =
        RestReply::Answered { status: 204, text: String::new(), parsed: Err("EOF while parsing a value".to_string()) };
    assert_eq!(SupabaseClient::delete_result(reply), Ok(Deleted { deleted: true }));
    let reply: RestReply<serde_json::Value> =
        RestReply::Answered { status: 200, text: "[]".to_string(), parsed: Ok(serde_json::Value::Array(vec![])) };
    assert_eq!(SupabaseClient::delete_result(reply), Ok(Deleted { deleted: true }));
}

#[test]
fn delete_reports_failures() {
    let reply: RestReply<serde_json::Value> =
        RestReply::Answered { status: 403, text: "denied".to_string(), parsed: Err(String::new()) };
    assert_eq!(SupabaseClient::delete_result(reply), Err(ApiError::Supabase("denied".to_string())));
    let reply: RestReply<serde_json::Value> = RestReply::Unsent("reset".to_string());
    assert_eq!(SupabaseClient::delete_result(reply), Err(ApiError::Supabase("reset".to_string())));
}

#[test]
fn inserts_go_to_their_tables() {
    let c = client();
    let row = NewDevice {
        user_id: USER,
        name: "box".to_string(),
        platform: "linux".to_string(),
        architecture: None,
        app_version: None,
    };
    let request = c.insert_device("tok", row.clone());
    assert_eq!(request.method, Method::Post);
    assert_eq!(request.url, "https://demo.supabase.co/rest/v1/devices");
    assert_eq!(request.body, Some(row));
    assert_eq!(request.headers.len(), 4);
    let backup = upenv_api::models::NewBackup {
        user_id: USER,
        device_id: 6,
        name: "b".to_string(),
        manifest: serde_json::Value::Null,
        status: "ready".to_string(),
        is_public: None,
    };
    assert_eq!(c.insert_backup("tok", backup).url, "https://demo.supabase.co/rest/v1/backups");
}

#[test]
fn gate_refuses_without_token_and_asks_auth_with_one() {
    let c = client();
    assert_eq!(require_auth(&c, None).err(), Some(ApiError::Unauthorized));
    assert_eq!(require_auth(&c, Some(b"Bearer   ")).err(), Some(ApiError::Unauthorized));
    let (token, request) = require_auth(&c, Some(b"Bearer tok")).unwrap();
    assert_eq!(token, AccessToken("tok".to_string()));
    assert_eq!(request.url, "https://demo.supabase.co/auth/v1/user");
    assert_eq!(request.headers, vec![header("authorization", "Bearer tok"), header("apikey", "anon-key")]);
}

#[test]
fn gate_lets_through_only_confirmed_callers() {
    let token = AccessToken("tok".to_string());
    let user = SupabaseUser { id: USER, email: Some("a@b.c".to_string()) };
    let confirmed = RestReply::Answered { status: 200, text: String::new(), parsed: Ok(user) };
    assert_eq!(
        confirm_caller(token.clone(), confirmed),
        Ok((CurrentUser { id: USER, email: Some("a@b.c".to_string()) }, token.clone()))
    );
    let refused: RestReply<SupabaseUser> =
        RestReply::Answered { status: 401, text: String::new(), parsed: Err("x".to_string()) };
    assert_eq!(confirm_caller(token.clone(), refused), Err(ApiError::Unauthorized));
    let unsent: RestReply<SupabaseUser> = RestReply::Unsent("down".to_string());
    assert_eq!(confirm_caller(token, unsent), Err(ApiError::Unauthorized));
}
