use vstd::prelude::*;
use crate::connector::{Api, AuthorizationType};
use crate::filter::FilterRule;
use crate::pagination::{Pagination, PaginationRule, RequestPagination};
use crate::range::RangeRule;
use crate::rate_limiter::{RateLimiter, TimePeriod};
use crate::sort::SortRule;

verus! {

/// Builds a connection to an API.
#[derive(Debug)]
pub struct ApiBuilder {
    pub authorization: AuthorizationType,
    pub endpoint: String,
    pub pagination: RequestPagination,
    pub filter: FilterRule,
    pub sort: SortRule,
    pub range: RangeRule,
    pub rate_limiter: RateLimiter,
    pub force_limit: Option<u8>,
}

impl ApiBuilder {
    /// A builder for `endpoint`: no authorization, default pagination, empty
    /// filter, sort and range, one request per second, no retry.
    pub fn new(endpoint: &str) -> (r: ApiBuilder)
        ensures
            r.authorization == AuthorizationType::Anonymous,
            r.endpoint@ == endpoint@,
            r.pagination.size == 100,
            r.pagination.current_page == 1,
            r.pagination.pagination == PaginationRule::Fixed(1),
            r.filter.pattern@.len() == 0 && r.filter.filters@.len() == 0,
            r.sort.pattern@.len() == 0 && r.sort.sorts@.len() == 0,
            r.range.pattern@.len() == 0 && r.range.ranges@.len() == 0,
            r.rate_limiter.limit == 1,
            r.rate_limiter.remaining == 1,
            r.rate_limiter.period == TimePeriod::Second,
            r.rate_limiter.is_adaptive,
            r.force_limit is None,
    {
        ApiBuilder {
            authorization: AuthorizationType::Anonymous,
            endpoint: String::from_str(endpoint),
            pagination: RequestPagination::default(),
            filter: FilterRule { pattern: String::new(), filters: Vec::new() },
            sort: SortRule { pattern: String::new(), sorts: Vec::new() },
            range: RangeRule { pattern: String::new(), ranges: Vec::new() },
            rate_limiter: RateLimiter::new(1, TimePeriod::Second),
            force_limit: None,
        }
    }

    pub fn endpoint(self, endpoint: &str) -> (r: ApiBuilder)
        ensures
            r.endpoint@ == endpoint@,
            r == (ApiBuilder { endpoint: r.endpoint, ..self }),
    {
        ApiBuilder { endpoint: String::from_str(endpoint), ..self }
    }

    pub fn bearer(self, token: &str) -> (r: ApiBuilder)
        ensures
            r.authorization is Bearer && r.authorization->Bearer_0@ == token@,
            r == (ApiBuilder { authorization: r.authorization, ..self }),
    {
        ApiBuilder { authorization: AuthorizationType::Bearer(String::from_str(token)), ..self }
    }

    pub fn oauth2(self, token: &str) -> (r: ApiBuilder)
        ensures
            r.authorization is OAuth2 && r.authorization->OAuth2_0@ == token@,
            r == (ApiBuilder { authorization: r.authorization, ..self }),
    {
        ApiBuilder { authorization: AuthorizationType::OAuth2(String::from_str(token)), ..self }
    }

    pub fn basic(self, token: &str) -> (r: ApiBuilder)
        ensures
            r.authorization is Basic && r.authorization->Basic_0@ == token@,
            r == (ApiBuilder { authorization: r.authorization, ..self }),
    {
        ApiBuilder { authorization: AuthorizationType::Basic(String::from_str(token)), ..self }
    }

    pub fn api_key(self, token: &str) -> (r: ApiBuilder)
        ensures
            r.authorization is ApiKey && r.authorization->ApiKey_0@ == token@,
            r == (ApiBuilder { authorization: r.authorization, ..self }),
    {
        ApiBuilder { authorization: AuthorizationType::ApiKey(String::from_str(token)), ..self }
    }

    pub fn oidc(self, token: &str) -> (r: ApiBuilder)
        ensures
            r.authorization is OIDC && r.authorization->OIDC_0@ == token@,
            r == (ApiBuilder { authorization: r.authorization, ..self }),
    {
        ApiBuilder { authorization: AuthorizationType::OIDC(String::from_str(token)), ..self }
    }

    pub fn keycloak(self, auth_type: AuthorizationType) -> (r: ApiBuilder)
        ensures
            r == (ApiBuilder { authorization: AuthorizationType::Keycloak(Box::new(auth_type)), ..self }),
    {
        ApiBuilder { authorization: AuthorizationType::Keycloak(Box::new(auth_type)), ..self }
    }

    pub fn pagination(self, pagination: PaginationRule) -> (r: ApiBuilder)
        ensures
            r == (ApiBuilder { pagination: RequestPagination { pagination, ..self.pagination }, ..self }),
    {
        let p = self.pagination.set_pagination(pagination);
        ApiBuilder { pagination: p, ..self }
    }

    pub fn filter(self, filter: FilterRule) -> (r: ApiBuilder)
        ensures
            r == (ApiBuilder { filter, ..self }),
    {
        ApiBuilder { filter, ..self }
    }

    pub fn sort(self, sort: SortRule) -> (r: ApiBuilder)
        ensures
            r == (ApiBuilder { sort, ..self }),
    {
        ApiBuilder { sort, ..self }
    }

    pub fn range(self, range: RangeRule) -> (r: ApiBuilder)
        ensures
            r == (ApiBuilder { range, ..self }),
    {
        ApiBuilder { range, ..self }
    }

    /// Sets the number of requests per period.
    pub fn limit(self, limit: u32) -> (r: ApiBuilder)
        ensures
            r == (ApiBuilder { rate_limiter: RateLimiter { limit, ..self.rate_limiter }, ..self }),
    {
        let rl = RateLimiter { limit, ..self.rate_limiter };
        ApiBuilder { rate_limiter: rl, ..self }
    }

    /// Sets the period of the rate limit.
    pub fn limit_period(self, period: TimePeriod) -> (r: ApiBuilder)
        ensures
            r == (ApiBuilder { rate_limiter: RateLimiter { period, ..self.rate_limiter }, ..self }),
    {
        let rl = RateLimiter { period, ..self.rate_limiter };
        ApiBuilder { rate_limiter: rl, ..self }
    }

    /// Retries a throttled request up to `limit` times.
    pub fn force_limit(self, limit: u8) -> (r: ApiBuilder)
        ensures
            r == (ApiBuilder { force_limit: Option::Some(limit), ..self }),
    {
        ApiBuilder { force_limit: Some(limit), ..self }
    }

    /// The connection, with everything the builder holds.
    pub fn build(self) -> (r: Api)
        ensures
            r == (Api {
                authorization: self.authorization,
                endpoint: self.endpoint,
                pagination: self.pagination,
                filter: self.filter,
                sort: self.sort,
                range: self.range,
                rate_limit: self.rate_limiter,
                force_limit: self.force_limit,
            }),
    {
        Api {
            authorization: self.authorization,
            endpoint: self.endpoint,
            pagination: self.pagination,
            filter: self.filter,
            sort: self.sort,
            range: self.range,
            rate_limit: self.rate_limiter,
            force_limit: self.force_limit,
        }
    }
}

} // verus!
