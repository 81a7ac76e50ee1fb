use reqt::error::ApiError;
use reqt::headers::HeaderList;
use reqt::pagination::PaginationRule;
use reqt::rate_limiter::{RateLimiter, TimePeriod};
use reqt::request::{Request, Step};
use reqt::request_url::{HttpMethod, RequestUrl};
use serde_json::Value;

type Reply = (u16, HeaderList, Vec<u8>);

fn headers(pairs: &[(&str, &str)]) -> HeaderList {
    let mut h = HeaderList::new();
    for (k, v) in pairs {
        h.insert(k, v);
    }
    h
}

fn array_body(ids: std::ops::Range<u64>) -> Vec<u8> {
    let items: Vec<String> = ids.map(|i| i.to_string()).collect();
    format!("[{}]", items.join(",")).into_bytes()
}

fn page_of(url: &str) -> u64 {
    let start = url.find("page[number]=").unwrap() + "page[number]=".len();
    let rest = &url[start..];
    let end = rest.find('&').unwrap_or(rest.len());
    rest[..end].parse().unwrap()
}

/// A server of 1000 users in pages of 100.
fn users_server(url: &str) -> Reply {
    let page = page_of(url);
    let h = headers(&[("X-Total", "1000"), ("X-Per-Page", "100")]);
    (200, h, array_body((page - 1) * 100..page * 100))
}

fn new_request(rule: PaginationRule) -> Request {
    let url = RequestUrl::new("http://localhost/").route("users");
    Request::new(HttpMethod::Get, url, None, None).pagination(rule)
}

fn limiter() -> RateLimiter {
    RateLimiter::starting_at(1000, TimePeriod::Second, 0)
}

fn drive(req: &mut Request, server: &dyn Fn(&str) -> Reply) -> (Step, Vec<String>) {
    let mut rl = limiter();
    let (mut fetch, mut step) = req.start();
    let mut sent = Vec::new();
    loop {
        match step {
            Step::Send(url) | Step::Resend(url) => {
                sent.push(url.clone());
                let (status, h, body) = server(&url);
                step = req.on_response(&mut fetch, &mut rl, status, &h, body);
            }
            other => return (other, sent),
        }
    }
}

fn items(step: Step) -> Vec<Value> {
    match step {
        Step::Items(v) => v,
        other => panic!("expected items, got {:?}", other),
    }
}

#[test]
fn connector_fixed_pagination() {
    let mut req = new_request(PaginationRule::Fixed(3));
    let (step, sent) = drive(&mut req, &users_server);
    let v = items(step);
    assert_eq!(v.len(), 300);
    assert_eq!(req.pagination.current_page, 4);
    assert_eq!(sent.len(), 3);
    assert_eq!(v[0], Value::from(0u64));
    assert_eq!(v[299], Value::from(299u64));
}

#[test]
fn connector_one_shot_pagination() {
    let mut req = new_request(PaginationRule::OneShot);
    let (step, sent) = drive(&mut req, &users_server);
    let v = items(step);
    assert_eq!(v.len(), 1000);
    assert_eq!(sent.len(), 10);
    for (i, x) in v.iter().enumerate() {
        assert_eq!(*x, Value::from(i as u64));
    }
}

#[test]
fn connector_none_pagination() {
    let mut req = new_request(PaginationRule::FirstPage);
    let (step, sent) = drive(&mut req, &users_server);
    assert_eq!(items(step).len(), 100);
    assert_eq!(sent.len(), 1);
}

#[test]
fn get_method_default() {
    let mut req = new_request(PaginationRule::default());
    let (step, sent) = drive(&mut req, &users_server);
    assert_eq!(items(step).len(), 100);
    assert_eq!(sent, vec!["http://localhost/users?page[number]=1&page[size]=100".to_string()]);
}

#[test]
fn one_shot_uneven_total() {
    let server = |url: &str| -> Reply {
        let page = page_of(url);
        let h = headers(&[("x-total", "250"), ("x-per-page", "100")]);
        let end = std::cmp::min(page * 100, 250);
        (200, h, array_body((page - 1) * 100..end))
    };
    let mut req = new_request(PaginationRule::OneShot);
    let (step, sent) = drive(&mut req, &server);
    assert_eq!(items(step).len(), 250);
    assert_eq!(sent.len(), 3);
}

#[test]
fn request_consistency() {
    let mut req = new_request(PaginationRule::Fixed(2));
    let first = items(drive(&mut req, &users_server).0);
    let second = items(drive(&mut req, &users_server).0);
    assert_eq!(first.len(), 200);
    assert_eq!(second.len(), 200);
    assert_eq!(req.pagination.current_page, 5);
    assert!(first.iter().zip(second.iter()).all(|(a, b)| a != b));
}

#[test]
fn request_consistency_after_reset() {
    let mut req = new_request(PaginationRule::Fixed(2));
    let first = items(drive(&mut req, &users_server).0);
    req.reset_pagination();
    assert_eq!(req.pagination.current_page, 1);
    let second = items(drive(&mut req, &users_server).0);
    assert_eq!(first.len(), 200);
    assert_eq!(second.len(), 200);
    assert_eq!(req.pagination.current_page, 3);
    assert!(first.iter().zip(second.iter()).all(|(a, b)| a == b));
}

#[test]
fn throttle_retries_then_fails() {
    let calls = std::cell::Cell::new(0);
    let server = |_: &str| -> Reply {
        calls.set(calls.get() + 1);
        (429, HeaderList::new(), Vec::new())
    };
    let mut req = new_request(PaginationRule::OneShot).force_limite(Some(2));
    let (step, sent) = drive(&mut req, &server);
    assert!(matches!(step, Step::Fail(ApiError::TooManyRequests)));
    assert_eq!(calls.get(), 3);
    assert_eq!(sent.len(), 3);
    assert!(sent.iter().all(|u| *u == sent[0]));
}

#[test]
fn throttle_without_budget_fails_at_once() {
    let server = |_: &str| -> Reply { (429, HeaderList::new(), Vec::new()) };
    let mut req = new_request(PaginationRule::OneShot);
    let (step, sent) = drive(&mut req, &server);
    assert!(matches!(step, Step::Fail(ApiError::TooManyRequests)));
    assert_eq!(sent.len(), 1);
}

#[test]
fn throttle_then_success() {
    let calls = std::cell::Cell::new(0);
    let server = |url: &str| -> Reply {
        calls.set(calls.get() + 1);
        if calls.get() == 1 { (429, HeaderList::new(), Vec::new()) } else { users_server(url) }
    };
    let mut req = new_request(PaginationRule::Fixed(1)).force_limite(Some(1));
    let (step, _) = drive(&mut req, &server);
    assert_eq!(items(step).len(), 100);
}

#[test]
fn second_page_not_array() {
    let server = |url: &str| -> Reply {
        let page = page_of(url);
        let h = headers(&[("X-Total", "1000"), ("X-Per-Page", "100")]);
        if page == 2 { (200, h, b"{\"id\": 1}".to_vec()) } else { users_server(url) }
    };
    let mut req = new_request(PaginationRule::OneShot);
    let (step, sent) = drive(&mut req, &server);
    assert!(matches!(step, Step::Fail(ApiError::JsonValueNotArray)));
    assert_eq!(sent.len(), 2);
}

#[test]
fn malformed_page_is_a_parse_error() {
    let server = |url: &str| -> Reply {
        let h = headers(&[("X-Total", "1000"), ("X-Per-Page", "100")]);
        if page_of(url) == 2 { (200, h, b"[1, 2".to_vec()) } else { users_server(url) }
    };
    let mut req = new_request(PaginationRule::OneShot);
    let (step, _) = drive(&mut req, &server);
    assert!(matches!(step, Step::Fail(ApiError::ResponseParse)));
}

#[test]
fn missing_total_hands_back_whole_body() {
    let server = |_: &str| -> Reply { (200, HeaderList::new(), b"{\"name\":\"x\"}".to_vec()) };
    let mut req = new_request(PaginationRule::OneShot);
    let (step, _) = drive(&mut req, &server);
    match step {
        Step::Whole(b) => assert_eq!(b, b"{\"name\":\"x\"}".to_vec()),
        other => panic!("expected the whole body, got {:?}", other),
    }
    assert_eq!(req.pagination.current_page, 1);
}

#[test]
fn error_statuses_abort() {
    for (code, expected) in [
        (404u16, ApiError::NotFound),
        (401, ApiError::Unauthorized),
        (500, ApiError::InternalServerError),
        (418, ApiError::BadRequest),
    ] {
        let server = move |_: &str| -> Reply { (code, HeaderList::new(), Vec::new()) };
        let mut req = new_request(PaginationRule::OneShot);
        match drive(&mut req, &server).0 {
            Step::Fail(e) => assert_eq!(e, expected),
            other => panic!("expected a failure, got {:?}", other),
        }
    }
}

#[test]
fn failing_later_page_keeps_nothing() {
    let server = |url: &str| -> Reply {
        if page_of(url) == 3 { (500, HeaderList::new(), Vec::new()) } else { users_server(url) }
    };
    let mut req = new_request(PaginationRule::OneShot);
    let (step, sent) = drive(&mut req, &server);
    assert!(matches!(step, Step::Fail(ApiError::InternalServerError)));
    assert_eq!(sent.len(), 3);
}

#[test]
fn bad_url_fails_before_sending() {
    let url = RequestUrl::new("not a url").route("users");
    let req = Request::new(HttpMethod::Get, url, None, None);
    let (_, step) = req.start();
    assert!(matches!(step, Step::Fail(ApiError::WrongUrlFormat)));
}

#[test]
fn adaptive_limit_read_from_pages() {
    let mut req = new_request(PaginationRule::FirstPage);
    let mut rl = RateLimiter::starting_at(100, TimePeriod::Second, 0);
    let (mut fetch, step) = req.start();
    assert!(matches!(step, Step::Send(_)));
    let h = headers(&[("X-Total", "1000"), ("X-Per-Page", "100"), ("x-minute-ratelimit-limit", "20")]);
    let step = req.on_response(&mut fetch, &mut rl, 200, &h, array_body(0..100));
    assert_eq!(items(step).len(), 100);
    assert_eq!(rl.limit, 20);
    assert_eq!(rl.period, TimePeriod::Minute);
}
