use std::collections::HashMap;

use reqt::connector::{Api, Connector};
use reqt::connector_builder::ApiBuilder;
use reqt::headers::HeaderList;
use reqt::pagination::PaginationRule;
use reqt::range::RangeRule;
use reqt::rate_limiter::{RateLimiter, TimePeriod};
use reqt::request::{Request, Step};
use reqt::filter::FilterRule;
use reqt::sort::SortRule;
use serde_json::Value;

const PAGINATION_SIZE: usize = 100;

#[derive(Clone)]
struct User {
    id: u64,
    name: String,
    campus: u64,
}

fn users() -> Vec<User> {
    let mut v: Vec<User> = (0..1000u64)
        .map(|i| User {
            id: i,
            name: format!("n{:03}", (i * 37) % 1000),
            campus: if i % 31 == 0 { 31 } else { 35 },
        })
        .collect();
    v[992].name = "jean".to_string();
    v[961].name = "michel".to_string();
    v[930].name = "pierre".to_string();
    v[899].name = "jacques".to_string();
    v[868].name = "francois".to_string();
    v
}

fn body_of(list: &[User]) -> Vec<u8> {
    let values: Vec<Value> = list
        .iter()
        .map(|u| {
            let mut m = serde_json::Map::new();
            m.insert("id".to_string(), Value::from(u.id));
            m.insert("name".to_string(), Value::from(u.name.clone()));
            m.insert("primary_campus_id".to_string(), Value::from(u.campus));
            Value::Object(m)
        })
        .collect();
    serde_json::to_vec(&values).unwrap()
}

fn params(url: &str) -> (String, HashMap<String, String>) {
    let without_host = &url["http://mock".len()..];
    let (path, query) = match without_host.find('?') {
        Some(i) => (&without_host[..i], &without_host[i + 1..]),
        None => (without_host, ""),
    };
    let mut map = HashMap::new();
    for part in query.split('&').filter(|p| !p.is_empty()) {
        let (k, v) = part.split_once('=').unwrap();
        map.insert(k.to_string(), v.to_string());
    }
    (path.to_string(), map)
}

fn with_paging(total: usize) -> HeaderList {
    let mut h = HeaderList::new();
    h.insert("X-Total", &total.to_string());
    h.insert("X-Per-Page", "100");
    h
}

/// Answers as a server of 1000 users with filters, sorts, ranges and pages;
/// the first route that matches answers.
fn server(url: &str) -> (u16, HeaderList, Vec<u8>) {
    let all = users();
    let (path, q) = params(url);
    let has = |k: &str, v: &str| q.get(k).map(|x| x == v).unwrap_or(false);
    let campus_31: Vec<User> = all.iter().filter(|u| u.campus == 31).cloned().collect();
    let mut asc = all.clone();
    asc.sort_by(|a, b| a.name.cmp(&b.name));
    let mut desc = asc.clone();
    desc.reverse();
    let mut asc_31 = campus_31.clone();
    asc_31.sort_by(|a, b| a.name.cmp(&b.name));
    let mut desc_31 = asc_31.clone();
    desc_31.reverse();
    if path == "/users/full" {
        return (200, HeaderList::new(), body_of(&all));
    }
    if path != "/users" {
        return (404, HeaderList::new(), Vec::new());
    }
    if has("filter[name]", "jean,michel") && has("filter[primary_campus_id]", "31") {
        return (200, HeaderList::new(), body_of(&[all[992].clone(), all[961].clone()]));
    }
    if has("filter[name]", "jean") && has("filter[primary_campus_id]", "31") {
        return (200, HeaderList::new(), body_of(&[all[992].clone()]));
    }
    if has("filter[primary_campus_id]", "31") && has("sort", "name") {
        return (200, HeaderList::new(), body_of(&asc_31));
    }
    if has("filter[primary_campus_id]", "31") && has("sort", "-name") {
        return (200, HeaderList::new(), body_of(&desc_31));
    }
    if has("sort", "-name") {
        return (200, with_paging(1000), body_of(&desc));
    }
    if has("sort", "name") {
        return (200, with_paging(1000), body_of(&asc));
    }
    if has("filter[primary_campus_id]", "31") {
        return (200, HeaderList::new(), body_of(&campus_31));
    }
    if has("range[id]", "45,63") {
        let r: Vec<User> = all.iter().filter(|u| u.id >= 45 && u.id < 63).cloned().collect();
        return (200, with_paging(18), body_of(&r));
    }
    if has("range[id]", "546,736") {
        let r: Vec<User> = all.iter().filter(|u| u.id >= 546 && u.id < 736).cloned().collect();
        return (200, with_paging(190), body_of(&r));
    }
    let page: usize = q.get("page[number]").and_then(|p| p.parse().ok()).unwrap_or(0);
    if page >= 1 && page <= 10 && has("page[size]", "100") {
        return (200, with_paging(1000), body_of(&all[(page - 1) * 100..page * 100]));
    }
    (404, HeaderList::new(), Vec::new())
}

fn connect() -> Api {
    ApiBuilder::new("http://mock").build()
}

fn send(req: &mut Request) -> Vec<Value> {
    let mut rl = RateLimiter::starting_at(1000, TimePeriod::Second, 0);
    let (mut fetch, mut step) = req.start();
    loop {
        match step {
            Step::Send(url) | Step::Resend(url) => {
                let (status, h, body) = server(&url);
                step = req.on_response(&mut fetch, &mut rl, status, &h, body);
            }
            Step::Whole(body) => return serde_json::from_slice::<Vec<Value>>(&body).unwrap(),
            Step::Items(items) => return items,
            Step::Fail(e) => panic!("request failed: {:?}", e),
        }
    }
}

fn names(v: &[Value]) -> (String, String) {
    let first = v.first().unwrap()["name"].as_str().unwrap().to_string();
    let last = v.last().unwrap()["name"].as_str().unwrap().to_string();
    (first, last)
}

fn one(s: &str) -> Vec<String> {
    vec![s.to_string()]
}

#[test]
fn request_1000_users() {
    let mut req = connect().get("/users/full").unwrap();
    assert_eq!(send(&mut req).len(), 1000);
}

#[test]
fn request_users_page_1() {
    let mut req = connect().get("/users").unwrap();
    assert_eq!(send(&mut req).len(), 100);
}

#[test]
fn request_users_full_pages() {
    let mut req = connect().get("/users").unwrap().pagination(PaginationRule::OneShot);
    assert_eq!(send(&mut req).len(), 1000);
}

#[test]
fn request_none_pagination_override() {
    let api = connect().pagination(PaginationRule::OneShot);
    let mut req = api.get("/users").unwrap().pagination(PaginationRule::default());
    assert_eq!(send(&mut req).len(), PAGINATION_SIZE);
}

#[test]
fn request_fixed_pagination_override() {
    let mut req = connect().get("/users").unwrap().pagination(PaginationRule::Fixed(3));
    assert_eq!(send(&mut req).len(), PAGINATION_SIZE * 3);
}

#[test]
fn request_one_shot_pagination_override() {
    let mut req = connect().get("/users").unwrap().pagination(PaginationRule::OneShot);
    assert!(send(&mut req).len() == 1000);
}

fn campus_api() -> Api {
    connect()
        .pagination(PaginationRule::default())
        .pattern_filter("filter[property]")
        .filter("primary_campus_id", &one("31"))
}

#[test]
fn connector_none_pagination_sort_name_asc() {
    let api = campus_api().pattern_sort("property").sort("name");
    let (first, last) = names(&send(&mut api.get("/users").unwrap()));
    assert!(first < last);
}

#[test]
fn connector_none_pagination_sort_name_desc() {
    let api = campus_api().pattern_sort("property").sort("-name");
    let (first, last) = names(&send(&mut api.get("/users").unwrap()));
    assert!(first > last);
}

#[test]
fn request_connector_none_pagination_sort_reset() {
    let api = campus_api().pattern_sort("property").sort("name");
    let mut req = api.get("/users").unwrap().set_sort(SortRule::default());
    let (first, last) = names(&send(&mut req));
    assert!(first > last || first < last);
}

#[test]
fn connector_none_pagination_request_sort_name_asc() {
    let mut req = campus_api().get("/users").unwrap().pattern_sort("property").sort("name");
    let (first, last) = names(&send(&mut req));
    assert!(first < last);
}

#[test]
fn connector_none_pagination_request_sort_name_desc() {
    let mut req = campus_api().get("/users").unwrap().pattern_sort("property").sort("-name");
    let (first, last) = names(&send(&mut req));
    assert!(first > last);
}

#[test]
fn connector_none_pagination_override_sort_name_asc() {
    let api = campus_api().pattern_sort("property").sort("-name");
    let mut req = api.get("/users").unwrap().pattern_sort("property").sort("name");
    let (first, last) = names(&send(&mut req));
    assert!(first < last);
}

#[test]
fn connector_none_pagination_override_sort_name_desc() {
    let api = campus_api().pattern_sort("property").sort("name");
    let mut req = api.get("/users").unwrap().pattern_sort("property").sort("-name");
    let (first, last) = names(&send(&mut req));
    assert!(first > last);
}

#[test]
fn request_connector_none_pagination_filter() {
    let api = campus_api().filter("name", &one("jean"));
    assert_eq!(send(&mut api.get("/users").unwrap()).len(), 1);
}

#[test]
fn request_connector_none_pagination_request_filter() {
    let api = connect().pagination(PaginationRule::default());
    let mut req = api
        .get("/users")
        .unwrap()
        .pattern_filter("filter[property]")
        .filter("primary_campus_id", &one("31"))
        .filter("name", &one("jean"));
    assert_eq!(send(&mut req).len(), 1);
}

#[test]
fn request_connector_none_pagination_filter_override() {
    let api = campus_api().filter("name", &one("jean"));
    let mut req = api
        .get("/users")
        .unwrap()
        .pattern_filter("filter[property]")
        .filter("primary_campus_id", &one("31"))
        .filter("name", &one("jean,michel"));
    assert_eq!(send(&mut req).len(), 2);
}

#[test]
fn request_connector_none_pagination_filter_reset() {
    let api = campus_api().filter("name", &one("jean"));
    let mut req = api.get("/users").unwrap().set_filter(FilterRule::default());
    assert_eq!(send(&mut req).len(), PAGINATION_SIZE);
}

fn range_api() -> Api {
    connect()
        .pagination(PaginationRule::default())
        .pattern_range("range[property]")
        .range("id", "45", "63")
}

#[test]
fn connector_none_pagination_range() {
    assert_eq!(send(&mut range_api().get("/users").unwrap()).len(), 18);
}

#[test]
fn connector_none_pagination_request_range() {
    let api = connect().pagination(PaginationRule::default());
    let mut req = api.get("/users").unwrap().pattern_range("range[property]").range("id", "45", "63");
    assert_eq!(send(&mut req).len(), 18);
}

#[test]
fn connector_none_pagination_range_override() {
    let mut req = range_api().get("/users").unwrap().range("id", "546", "736");
    assert_eq!(send(&mut req).len(), 190);
}

#[test]
fn connector_none_pagination_range_reset() {
    let mut req = range_api().get("/users").unwrap().set_range(RangeRule::default());
    assert_eq!(send(&mut req).len(), PAGINATION_SIZE);
}
