use vstd::prelude::*;
use crate::error::ApiError;
use crate::filter::{filter_key, filter_value, filter_with_key, Filter, FilterRule};
use crate::headers::{header_set, HeaderList};
use crate::keyed::upserted;
use crate::pagination::{Pagination, PaginationRule, RequestPagination};
use crate::range::{range_key, range_value, Range, RangeRule};
use crate::rate_limiter::{RateLimiter, TimePeriod};
use crate::request::Request;
use crate::request_url::{has_body, HttpMethod, RequestUrl};
use crate::sort::{sort_entry, sort_upserted, sort_with_entry, Sort, SortOrder, SortRule};
use crate::text::{header_value_accepted, header_value_ok};

verus! {

/// How requests prove who sends them.
#[derive(Debug, PartialEq, Eq)]
pub enum AuthorizationType {
    /// No authorization header.
    Anonymous,
    /// `Authorization: Basic <token>`.
    Basic(String),
    /// `Authorization: Bearer <token>`.
    Bearer(String),
    /// `X-API-Key: <token>`.
    ApiKey(String),
    /// `Authorization: Bearer <access token>`.
    OAuth2(String),
    /// The header of the scheme a Keycloak server handed out.
    Keycloak(Box<AuthorizationType>),
    /// `Authorization: Bearer <token>`.
    OIDC(String),
}

impl Default for AuthorizationType {
    /// No authorization.
    fn default() -> (r: AuthorizationType)
        ensures
            r == AuthorizationType::Anonymous,
    {
        AuthorizationType::Anonymous
    }
}

/// The header value of a scheme; none without authorization.
pub open spec fn auth_text(a: AuthorizationType) -> Option<Seq<char>>
    decreases a,
{
    match a {
        AuthorizationType::Anonymous => Option::None,
        AuthorizationType::Basic(t) => Option::Some("Basic "@ + t@),
        AuthorizationType::ApiKey(t) => Option::Some(t@),
        AuthorizationType::Bearer(t) => Option::Some("Bearer "@ + t@),
        AuthorizationType::OAuth2(t) => Option::Some("Bearer "@ + t@),
        AuthorizationType::OIDC(t) => Option::Some("Bearer "@ + t@),
        AuthorizationType::Keycloak(inner) => auth_text(*inner),
    }
}

/// The header a scheme's value goes in.
pub open spec fn auth_header_name(a: AuthorizationType) -> Seq<char> {
    match a {
        AuthorizationType::ApiKey(_) => "X-API-Key"@,
        _ => "authorization"@,
    }
}

/// `prefix` followed by `token`.
fn prefixed(prefix: &str, token: &String) -> (r: String)
    ensures
        r@ == prefix@ + token@,
{
    let mut s = String::from_str(prefix);
    s.append(token.as_str());
    s
}

impl AuthorizationType {
    /// The header value of the scheme; none without authorization.
    pub fn token_text(&self) -> (r: Option<String>)
        ensures
            match auth_text(*self) {
                Option::Some(t) => r is Some && r->Some_0@ == t,
                Option::None => r is None,
            },
        decreases *self,
    {
        match self {
            AuthorizationType::Anonymous => None,
            AuthorizationType::Basic(t) => Some(prefixed("Basic ", t)),
            AuthorizationType::ApiKey(t) => Some(t.clone()),
            AuthorizationType::Bearer(t) => Some(prefixed("Bearer ", t)),
            AuthorizationType::OAuth2(t) => Some(prefixed("Bearer ", t)),
            AuthorizationType::OIDC(t) => Some(prefixed("Bearer ", t)),
            AuthorizationType::Keycloak(inner) => inner.token_text(),
        }
    }

    /// Puts the scheme's header into `headers`: nothing without
    /// authorization, and an error, with `headers` left as they were, when the
    /// value holds a character that headers cannot carry.
    pub fn header_value(&self, headers: &mut HeaderList) -> (r: Result<(), ApiError>)
        ensures
            match auth_text(*self) {
                Option::None => r is Ok && *final(headers) == *old(headers),
                Option::Some(t) => if header_value_ok(t) {
                    r is Ok && final(headers)@ == header_set(old(headers)@, auth_header_name(*self), t)
                } else {
                    r == Err::<(), ApiError>(ApiError::InvalidHeaderValue) && *final(headers) == *old(headers)
                },
            },
    {
        match self.token_text() {
            None => Ok(()),
            Some(text) => {
                if !header_value_accepted(text.as_str()) {
                    return Err(ApiError::InvalidHeaderValue);
                }
                match self {
                    AuthorizationType::ApiKey(_) => {
                        proof {
                            reveal_strlit("X-API-Key");
                        }
                        headers.insert("X-API-Key", text.as_str());
                    },
                    _ => {
                        proof {
                            reveal_strlit("authorization");
                        }
                        headers.insert("authorization", text.as_str());
                    },
                }
                Ok(())
            },
        }
    }
}

/// A connection to an API: its endpoint and authorization, and the
/// pagination, filter, sort, range, rate limit and retries that its requests
/// start from.
#[derive(Debug)]
pub struct Api {
    pub authorization: AuthorizationType,
    pub endpoint: String,
    pub pagination: RequestPagination,
    pub filter: FilterRule,
    pub sort: SortRule,
    pub range: RangeRule,
    pub rate_limit: RateLimiter,
    pub force_limit: Option<u8>,
}

/// The headers a request starts with: a JSON content type for methods with
/// a body.
pub open spec fn base_headers(method: HttpMethod) -> Seq<(Seq<char>, Seq<char>)> {
    if has_body(method) {
        header_set(Seq::empty(), "content-type"@, "application/json"@)
    } else {
        Seq::empty()
    }
}

/// Whether `r` is the request that `api` builds for `route` and `method`: an
/// error when the authorization value cannot be a header; else a request to
/// the endpoint and route, with the content type and authorization headers,
/// no body, and the API's pagination, filter, sort, range and retries.
pub open spec fn builds_request(api: Api, route: Seq<char>, method: HttpMethod, r: Result<Request, ApiError>) -> bool {
    let t = auth_text(api.authorization);
    if t is Some && !header_value_ok(t->Some_0) {
        r == Err::<Request, ApiError>(ApiError::InvalidHeaderValue)
    } else {
        &&& r is Ok
        &&& r->Ok_0.method == method
        &&& r->Ok_0.request_url.endpoint@ == api.endpoint@
        &&& r->Ok_0.request_url.route@ == route
        &&& r->Ok_0.request_url.query@ == Seq::<Seq<char>>::empty()
        &&& r->Ok_0.request_url.method == method
        &&& r->Ok_0.headers is Some
        &&& r->Ok_0.headers->Some_0@ == match t {
            Option::Some(v) => header_set(base_headers(method), auth_header_name(api.authorization), v),
            Option::None => base_headers(method),
        }
        &&& r->Ok_0.body is None
        &&& r->Ok_0.pagination == api.pagination
        &&& r->Ok_0.filter.pattern@ == api.filter.pattern@
        &&& r->Ok_0.filter.entries_spec() == api.filter.entries_spec()
        &&& r->Ok_0.sort.pattern@ == api.sort.pattern@
        &&& r->Ok_0.sort.entries_spec() == api.sort.entries_spec()
        &&& r->Ok_0.range.pattern@ == api.range.pattern@
        &&& r->Ok_0.range.entries_spec() == api.range.entries_spec()
        &&& r->Ok_0.force_limit == api.force_limit
    }
}

/// Builds the request that `api` makes for `route` and `method`.
pub fn build_request(api: &Api, route: &str, method: HttpMethod) -> (r: Result<Request, ApiError>)
    ensures
        builds_request(*api, route@, method, r),
{
    let mut headers = HeaderList::new();
    if method.has_body() {
        proof {
            reveal_strlit("content-type");
            reveal_strlit("application/json");
        }
        headers.insert("content-type", "application/json");
    }
    match api.authorization.header_value(&mut headers) {
        Err(e) => {
            return Err(e);
        },
        Ok(()) => {},
    }
    let url = RequestUrl::new(api.endpoint.as_str()).route(route).method(method);
    Ok(Request {
        method,
        request_url: url,
        headers: Some(headers),
        body: None,
        pagination: api.pagination,
        filter: api.filter.duplicate(),
        sort: api.sort.duplicate(),
        range: api.range.duplicate(),
        force_limit: api.force_limit,
    })
}

/// Whether two connections agree on everything but their filters.
pub open spec fn api_but_filter(a: Api, b: Api) -> bool {
    a == Api { filter: a.filter, ..b }
}

/// Whether two connections agree on everything but their sorts.
pub open spec fn api_but_sort(a: Api, b: Api) -> bool {
    a == Api { sort: a.sort, ..b }
}

/// Whether two connections agree on everything but their ranges.
pub open spec fn api_but_range(a: Api, b: Api) -> bool {
    a == Api { range: a.range, ..b }
}

impl Api {
    /// Sets the pagination rule of the requests to come.
    pub fn pagination(self, pagination: PaginationRule) -> (r: Api)
        ensures
            r == (Api { pagination: RequestPagination { pagination, ..self.pagination }, ..self }),
    {
        let p = self.pagination.set_pagination(pagination);
        Api { pagination: p, ..self }
    }

    /// The authorization header value; none without authorization.
    pub fn token(&self) -> (r: Option<String>)
        ensures
            match auth_text(self.authorization) {
                Option::Some(t) => r is Some && r->Some_0@ == t,
                Option::None => r is None,
            },
    {
        self.authorization.token_text()
    }

    pub fn pattern_filter(self, pattern: &str) -> (r: Api)
        ensures
            api_but_filter(r, self),
            r.filter.pattern_spec() == pattern@,
            r.filter.entries_spec() == self.filter.entries_spec(),
    {
        let Api { authorization, endpoint, pagination, filter, sort, range, rate_limit, force_limit } = self;
        let filter = filter.pattern(pattern);
        Api { authorization, endpoint, pagination, filter, sort, range, rate_limit, force_limit }
    }

    pub fn filter(self, property: &str, value: &Vec<String>) -> (r: Api)
        ensures
            api_but_filter(r, self),
            r.filter.pattern_spec() == self.filter.pattern_spec(),
            r.filter.entries_spec() == upserted(
                self.filter.entries_spec(),
                filter_key(self.filter.pattern_spec(), property@),
                filter_value(value@),
            ),
    {
        let Api { authorization, endpoint, pagination, filter, sort, range, rate_limit, force_limit } = self;
        let filter = filter.filter(property, value);
        Api { authorization, endpoint, pagination, filter, sort, range, rate_limit, force_limit }
    }

    pub fn filter_with(self, property: &str, filter: &str, value: &Vec<String>) -> (r: Api)
        ensures
            api_but_filter(r, self),
            r.filter.pattern_spec() == self.filter.pattern_spec(),
            r.filter.entries_spec() == upserted(
                self.filter.entries_spec(),
                filter_with_key(self.filter.pattern_spec(), property@, filter@),
                filter_value(value@),
            ),
    {
        let Api { authorization, endpoint, pagination, filter: f, sort, range, rate_limit, force_limit } = self;
        let f = f.filter_with(property, filter, value);
        Api { authorization, endpoint, pagination, filter: f, sort, range, rate_limit, force_limit }
    }

    pub fn pattern_sort(self, pattern: &str) -> (r: Api)
        ensures
            api_but_sort(r, self),
            r.sort.pattern_spec() == pattern@,
            r.sort.entries_spec() == self.sort.entries_spec(),
    {
        let Api { authorization, endpoint, pagination, filter, sort, range, rate_limit, force_limit } = self;
        let sort = sort.pattern(pattern);
        Api { authorization, endpoint, pagination, filter, sort, range, rate_limit, force_limit }
    }

    pub fn sort(self, property: &str) -> (r: Api)
        ensures
            api_but_sort(r, self),
            r.sort.pattern_spec() == self.sort.pattern_spec(),
            r.sort.entries_spec() == sort_upserted(
                self.sort.entries_spec(),
                sort_entry(self.sort.pattern_spec(), property@),
            ),
    {
        let Api { authorization, endpoint, pagination, filter, sort, range, rate_limit, force_limit } = self;
        let sort = sort.sort(property);
        Api { authorization, endpoint, pagination, filter, sort, range, rate_limit, force_limit }
    }

    pub fn sort_with(self, property: &str, order: SortOrder) -> (r: Api)
        ensures
            api_but_sort(r, self),
            r.sort.pattern_spec() == self.sort.pattern_spec(),
            r.sort.entries_spec() == sort_upserted(
                self.sort.entries_spec(),
                sort_with_entry(self.sort.pattern_spec(), property@, order),
            ),
    {
        let Api { authorization, endpoint, pagination, filter, sort, range, rate_limit, force_limit } = self;
        let sort = sort.sort_with(property, order);
        Api { authorization, endpoint, pagination, filter, sort, range, rate_limit, force_limit }
    }

    pub fn pattern_range(self, pattern: &str) -> (r: Api)
        ensures
            api_but_range(r, self),
            r.range.pattern_spec() == pattern@,
            r.range.entries_spec() == self.range.entries_spec(),
    {
        let Api { authorization, endpoint, pagination, filter, sort, range, rate_limit, force_limit } = self;
        let range = range.pattern(pattern);
        Api { authorization, endpoint, pagination, filter, sort, range, rate_limit, force_limit }
    }

    pub fn range(self, property: &str, min: &str, max: &str) -> (r: Api)
        ensures
            api_but_range(r, self),
            r.range.pattern_spec() == self.range.pattern_spec(),
            r.range.entries_spec() == upserted(
                self.range.entries_spec(),
                range_key(self.range.pattern_spec(), property@),
                range_value(min@, max@),
            ),
    {
        let Api { authorization, endpoint, pagination, filter, sort, range, rate_limit, force_limit } = self;
        let range = range.range(property, min, max);
        Api { authorization, endpoint, pagination, filter, sort, range, rate_limit, force_limit }
    }

    /// Sets the number of requests per period.
    pub fn rate_limit(self, rate_limit: u32) -> (r: Api)
        ensures
            r == (Api { rate_limit: RateLimiter { limit: rate_limit, ..self.rate_limit }, ..self }),
    {
        let rl = RateLimiter { limit: rate_limit, ..self.rate_limit };
        Api { rate_limit: rl, ..self }
    }

    /// Sets the period of the rate limit.
    pub fn rate_period(self, rate_period: TimePeriod) -> (r: Api)
        ensures
            r == (Api { rate_limit: RateLimiter { period: rate_period, ..self.rate_limit }, ..self }),
    {
        let rl = RateLimiter { period: rate_period, ..self.rate_limit };
        Api { rate_limit: rl, ..self }
    }

    /// Sets the retries after a throttled response; `None` retries never.
    pub fn force_limit(self, limit: Option<u8>) -> (r: Api)
        ensures
            r == (Api { force_limit: limit, ..self }),
    {
        Api { force_limit: limit, ..self }
    }
}

/// Makes requests of each HTTP method.
pub trait Connector: Sized {
    /// Whether `r` is the request built for `route` and `method`.
    spec fn builds(&self, route: Seq<char>, method: HttpMethod, r: Result<Request, ApiError>) -> bool;

    fn get(&self, route: &str) -> (r: Result<Request, ApiError>)
        ensures
            self.builds(route@, HttpMethod::Get, r);

    fn post(&self, route: &str) -> (r: Result<Request, ApiError>)
        ensures
            self.builds(route@, HttpMethod::Post, r);

    fn put(&self, route: &str) -> (r: Result<Request, ApiError>)
        ensures
            self.builds(route@, HttpMethod::Put, r);

    fn patch(&self, route: &str) -> (r: Result<Request, ApiError>)
        ensures
            self.builds(route@, HttpMethod::Patch, r);

    fn delete(&self, route: &str) -> (r: Result<Request, ApiError>)
        ensures
            self.builds(route@, HttpMethod::Delete, r);
}

impl Connector for Api {
    open spec fn builds(&self, route: Seq<char>, method: HttpMethod, r: Result<Request, ApiError>) -> bool {
        builds_request(*self, route, method, r)
    }

    fn get(&self, route: &str) -> (r: Result<Request, ApiError>) {
        build_request(self, route, HttpMethod::Get)
    }

    fn post(&self, route: &str) -> (r: Result<Request, ApiError>) {
        build_request(self, route, HttpMethod::Post)
    }

    fn put(&self, route: &str) -> (r: Result<Request, ApiError>) {
        build_request(self, route, HttpMethod::Put)
    }

    fn patch(&self, route: &str) -> (r: Result<Request, ApiError>) {
        build_request(self, route, HttpMethod::Patch)
    }

    fn delete(&self, route: &str) -> (r: Result<Request, ApiError>) {
        build_request(self, route, HttpMethod::Delete)
    }
}

} // verus!
