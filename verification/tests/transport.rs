use tabnews::internal::http_client::HttpClient;
use tabnews::internal::http_client::BASE_URL;
use tabnews::internal::request::classify;
use tabnews::internal::request::Method;
use tabnews::internal::request::Payload;
use tabnews::internal::request::Response;
use tabnews::models::content::ContentParams;

fn pair(name: &str, value: &str) -> (String, String) {
    (name.to_owned(), value.to_owned())
}

#[test]
fn default_client_talks_json_to_the_public_api() {
    let client = HttpClient::default();
    assert_eq!(BASE_URL, "https://www.tabnews.com.br/api/v1");
    assert_eq!(client.host(), BASE_URL);
    assert_eq!(client.header_count(), 1);
    assert_eq!(client.get_header("Content-Type").unwrap(), "application/json");
}

#[test]
fn new_client_keeps_its_host() {
    let client = HttpClient::new("http://localhost:3000/api/v1".to_owned());
    assert_eq!(client.host(), "http://localhost:3000/api/v1");
    assert_eq!(client.get_header("content-type").unwrap(), "application/json");
}

#[test]
fn header_lookup_ignores_case() {
    let mut client = HttpClient::default();
    client.add_header("X-Trace", "abc");
    assert_eq!(client.get_header("X-Trace").unwrap(), "abc");
    assert_eq!(client.get_header("x-trace").unwrap(), "abc");
    assert_eq!(client.get_header("X-TRACE").unwrap(), "abc");
}

#[test]
fn add_header_overwrites_in_any_case() {
    let mut client = HttpClient::default();
    client.add_header("X-Trace", "first");
    assert_eq!(client.header_count(), 2);
    client.add_header("x-trace", "second");
    assert_eq!(client.header_count(), 2);
    assert_eq!(client.get_header("X-Trace").unwrap(), "second");
    assert_eq!(client.get_header("Content-Type").unwrap(), "application/json");
}

#[test]
fn add_header_keeps_text_beyond_ascii() {
    let mut client = HttpClient::default();
    client.add_header("X-Name", "olá\tmundo");
    assert_eq!(client.get_header("x-name").unwrap(), "olá\tmundo");
}

#[test]
fn add_multiple_headers_lets_the_later_win() {
    let mut client = HttpClient::default();
    client.add_multiple_headers(vec![
        pair("Accept", "text/html"),
        pair("X-A", "1"),
        pair("accept", "application/json"),
    ]);
    assert_eq!(client.header_count(), 3);
    assert_eq!(client.get_header("Accept").unwrap(), "application/json");
    assert_eq!(client.get_header("X-A").unwrap(), "1");
}

#[test]
fn add_multiple_headers_of_none_changes_nothing() {
    let mut client = HttpClient::default();
    client.add_multiple_headers(Vec::new());
    assert_eq!(client.header_count(), 1);
    assert_eq!(client.host(), BASE_URL);
}

#[test]
fn get_header_reports_what_is_missing() {
    let client = HttpClient::default();
    let missing = client.get_header("Cookie").unwrap_err();
    assert_eq!(missing.name, "Cookie");
    assert_eq!(missing.message(), "Error: header Cookie doesn't exists");
}

#[test]
fn get_header_of_no_name_is_missing() {
    let client = HttpClient::default();
    assert!(client.get_header("").is_err());
    assert!(client.get_header("not a name").is_err());
}

#[test]
fn set_host_overwrites_the_host_only() {
    let mut client = HttpClient::default();
    client.add_header("X-A", "1");
    client.set_host("http://preview.example/api/v1".to_owned());
    assert_eq!(client.host(), "http://preview.example/api/v1");
    assert_eq!(client.header_count(), 2);
    assert_eq!(client.get_header("X-A").unwrap(), "1");
}

#[test]
fn get_builds_a_plain_request() {
    let client = HttpClient::default();
    let request = client.get("/contents/rss".to_owned());
    assert_eq!(request.method, Method::Get);
    assert_eq!(request.url, "https://www.tabnews.com.br/api/v1/contents/rss");
    assert!(request.query.is_empty());
    assert!(matches!(request.body, Payload::Empty));
    assert_eq!(request.header("content-type"), Some("application/json".to_owned()));
    assert_eq!(request.header("cookie"), None);
}

#[test]
fn get_with_params_serializes_what_is_set() {
    let client = HttpClient::default();
    let params = ContentParams { page: Some(3), per_page: None, strategy: Some("relevant".to_owned()) };
    let request = client.get_with_params("/contents".to_owned(), Some(&params));
    assert_eq!(request.method, Method::Get);
    assert_eq!(request.url, "https://www.tabnews.com.br/api/v1/contents");
    assert_eq!(request.query, vec![pair("page", "3"), pair("strategy", "relevant")]);
    assert!(matches!(request.body, Payload::Empty));
}

#[test]
fn get_with_params_without_params_has_no_query() {
    let client = HttpClient::default();
    let request = client.get_with_params("/contents".to_owned(), None);
    assert!(request.query.is_empty());
    let unset = ContentParams::default();
    let request = client.get_with_params("/contents".to_owned(), Some(&unset));
    assert!(request.query.is_empty());
}

#[test]
fn post_carries_its_body() {
    let client = HttpClient::default();
    let request = client.post("/sessions".to_owned(), Payload::Fields(vec![pair("email", "a@b.c")]));
    assert_eq!(request.method, Method::Post);
    assert_eq!(request.url, "https://www.tabnews.com.br/api/v1/sessions");
    assert!(request.query.is_empty());
    match request.body {
        Payload::Fields(fields) => assert_eq!(fields, vec![pair("email", "a@b.c")]),
        other => panic!("unexpected body {:?}", other),
    }
}

#[test]
fn patch_carries_its_body() {
    let client = HttpClient::default();
    let request = client.patch("users/me".to_owned(), Payload::Fields(vec![pair("k", "v")]));
    assert_eq!(request.method, Method::Patch);
    assert_eq!(request.url, "https://www.tabnews.com.br/api/v1/users/me");
    match request.body {
        Payload::Fields(fields) => assert_eq!(fields, vec![pair("k", "v")]),
        other => panic!("unexpected body {:?}", other),
    }
}

#[test]
fn a_request_holds_the_headers_of_its_moment() {
    let mut client = HttpClient::default();
    client.add_header("X-A", "1");
    let before = client.get("/users".to_owned());
    client.add_header("X-A", "2");
    client.add_header("X-B", "3");
    let after = client.get("/users".to_owned());
    assert_eq!(before.header("x-a"), Some("1".to_owned()));
    assert_eq!(before.header("x-b"), None);
    assert_eq!(after.header("x-a"), Some("2".to_owned()));
    assert_eq!(after.header("x-b"), Some("3".to_owned()));
}

#[test]
fn classify_passes_the_success_range() {
    for status in [200u16, 201, 204, 299] {
        let passed = classify(Method::Get, Response { status, body: vec![1, 2, 3] }).unwrap();
        assert_eq!(passed.status, status);
        assert_eq!(passed.body, vec![1, 2, 3]);
    }
}

#[test]
fn classify_rejects_what_lies_outside() {
    for status in [0u16, 100, 199, 300, 301, 400, 404, 500, u16::MAX] {
        let rejected = classify(Method::Get, Response { status, body: vec![9, 8] }).unwrap_err();
        assert_eq!(rejected.status, status);
        assert_eq!(rejected.body, vec![9, 8]);
        assert!(classify(Method::Patch, Response { status, body: Vec::new() }).is_err());
    }
}

#[test]
fn classify_hands_back_any_response_to_a_post() {
    for status in [200u16, 201, 301, 400, 401, 404, 500] {
        let passed = classify(Method::Post, Response { status, body: vec![7] }).unwrap();
        assert_eq!(passed.status, status);
        assert_eq!(passed.body, vec![7]);
    }
}

#[test]
fn classify_patch_like_get() {
    assert!(classify(Method::Patch, Response { status: 200, body: Vec::new() }).is_ok());
    assert!(classify(Method::Patch, Response { status: 422, body: Vec::new() }).is_err());
}
