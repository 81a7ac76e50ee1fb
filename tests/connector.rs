use reqt::connector::{build_request, AuthorizationType, Connector};
use reqt::connector_builder::ApiBuilder;
use reqt::error::{check_status, ApiError, ConnectorError, ErrorContext};
use reqt::pagination::{resolve_page_count, PaginationRule};
use reqt::request_url::HttpMethod;

#[test]
fn basic_and_bearer_tokens() {
    assert_eq!(AuthorizationType::Basic("bG9s".to_string()).token_text(), Some("Basic bG9s".to_string()));
    assert_eq!(AuthorizationType::OAuth2("t".to_string()).token_text(), Some("Bearer t".to_string()));
    assert_eq!(
        AuthorizationType::Keycloak(Box::new(AuthorizationType::Bearer("k".to_string()))).token_text(),
        Some("Bearer k".to_string())
    );
    assert_eq!(AuthorizationType::Anonymous.token_text(), None);
}

#[test]
fn post_request_headers() {
    let api = ApiBuilder::new("https://api.example.com/").api_key("SECRET-REDACTED").build();
    let req = api.post("users").unwrap();
    let h = req.headers.clone().unwrap();
    assert_eq!(h.get("Content-Type"), Some("application/json".to_string()));
    assert_eq!(h.get("x-api-key"), Some("SECRET-REDACTED".to_string()));
    assert_eq!(req.method, HttpMethod::Post);
    assert_eq!(req.current_url(), "https://api.example.com/users?page[number]=1&page[size]=100");
}

#[test]
fn get_request_has_authorization_only() {
    let api = ApiBuilder::new("https://api.example.com/").bearer("abc").pagination(PaginationRule::OneShot).build();
    let req = api.get("items").unwrap();
    let h = req.headers.clone().unwrap();
    assert_eq!(h.entries, vec![("authorization".to_string(), "Bearer abc".to_string())]);
    assert_eq!(req.pagination.pagination, PaginationRule::OneShot);
}

#[test]
fn invalid_header_value_is_an_error() {
    let api = ApiBuilder::new("https://api.example.com/").bearer("a\nb").build();
    let r = build_request(&api, "users", HttpMethod::Get);
    assert_eq!(r.err(), Some(ApiError::InvalidHeaderValue));
}

#[test]
fn connector_filter_sort_range_in_url() {
    let api = ApiBuilder::new("https://api.example.com/")
        .build()
        .pattern_filter("filter[property]")
        .filter("primary_campus_id", &vec!["31".to_string()])
        .pattern_sort("property")
        .sort("name")
        .pattern_range("range[property]")
        .range("id", "45", "63");
    let req = api.get("users").unwrap().sort("-name");
    assert_eq!(
        req.current_url(),
        "https://api.example.com/users?page[number]=1&page[size]=100&filter[primary_campus_id]=31&sort=-name&range[id]=45,63"
    );
}

#[test]
fn status_mapping() {
    assert!(check_status(200).is_ok());
    assert!(check_status(204).is_ok());
    assert_eq!(check_status(404), Err(ApiError::NotFound));
    assert_eq!(check_status(401), Err(ApiError::Unauthorized));
    assert_eq!(check_status(429), Err(ApiError::TooManyRequests));
    assert_eq!(check_status(500), Err(ApiError::InternalServerError));
    assert_eq!(check_status(302), Err(ApiError::BadRequest));
    assert_eq!(ApiError::from_status(503), ApiError::BadRequest);
}

#[test]
fn error_context_wraps() {
    let r: Result<u8, ApiError> = Err(ApiError::NotFound);
    assert_eq!(r.err_ctx(ConnectorError), Err(ApiError::Connector(Box::new(ApiError::NotFound), ConnectorError)));
    let ok: Result<u8, ApiError> = Ok(3);
    assert_eq!(ok.err_ctx(ConnectorError), Ok(3));
}

#[test]
fn page_count_resolution() {
    assert_eq!(resolve_page_count(None, Some(100), PaginationRule::OneShot), 1);
    assert_eq!(resolve_page_count(Some(1000), Some(100), PaginationRule::OneShot), 10);
    assert_eq!(resolve_page_count(Some(1001), Some(100), PaginationRule::OneShot), 11);
    assert_eq!(resolve_page_count(Some(1000), Some(100), PaginationRule::Fixed(3)), 3);
    assert_eq!(resolve_page_count(Some(150), Some(100), PaginationRule::Fixed(3)), 2);
    assert_eq!(resolve_page_count(Some(1000), Some(100), PaginationRule::FirstPage), 1);
    assert_eq!(resolve_page_count(Some(7), None, PaginationRule::OneShot), 7);
    assert_eq!(resolve_page_count(Some(7), Some(0), PaginationRule::OneShot), 7);
}

#[test]
fn request_body_only_for_methods_with_body() {
    let api = ApiBuilder::new("https://api.example.com/").build();
    let get = api.get("users").unwrap().body(b"{}".to_vec());
    assert!(get.body.is_none());
    let post = api.post("users").unwrap().body(b"{}".to_vec());
    assert_eq!(post.body, Some(b"{}".to_vec()));
}
