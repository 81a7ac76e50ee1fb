use vstd::prelude::*;
use crate::filter::FilterRule;
use crate::headers::HeaderList;
use crate::pagination::{Pagination, PaginationRule, RequestPagination};
use crate::range::RangeRule;
use crate::request::Request;
use crate::request_url::{HttpMethod, RequestUrl};
use crate::sort::SortRule;

verus! {

/// Builds a request.
#[derive(Debug)]
pub struct RequestBuilder {
    pub method: HttpMethod,
    pub request_url: RequestUrl,
    pub headers: Option<HeaderList>,
    pub body: Option<Vec<u8>>,
    pub pagination: RequestPagination,
    pub filter: FilterRule,
    pub sort: SortRule,
    pub range: RangeRule,
    pub force_limit: Option<u8>,
}

impl RequestBuilder {
    /// A GET request to `request_url` with no headers, no body, default
    /// pagination, empty filter, sort and range, and no retry.
    pub fn new(request_url: RequestUrl) -> (r: RequestBuilder)
        ensures
            r.method == HttpMethod::Get,
            r.request_url == request_url,
            r.headers is None,
            r.body is None,
            r.pagination.size == 100,
            r.pagination.current_page == 1,
            r.pagination.pagination == PaginationRule::Fixed(1),
            r.filter.pattern@.len() == 0 && r.filter.filters@.len() == 0,
            r.sort.pattern@.len() == 0 && r.sort.sorts@.len() == 0,
            r.range.pattern@.len() == 0 && r.range.ranges@.len() == 0,
            r.force_limit is None,
    {
        RequestBuilder {
            method: HttpMethod::Get,
            request_url,
            headers: None,
            body: None,
            pagination: RequestPagination::default(),
            filter: FilterRule { pattern: String::new(), filters: Vec::new() },
            sort: SortRule { pattern: String::new(), sorts: Vec::new() },
            range: RangeRule { pattern: String::new(), ranges: Vec::new() },
            force_limit: None,
        }
    }

    pub fn method(self, method: HttpMethod) -> (r: RequestBuilder)
        ensures
            r == (RequestBuilder { method, ..self }),
    {
        RequestBuilder { method, ..self }
    }

    pub fn headers(self, headers: HeaderList) -> (r: RequestBuilder)
        ensures
            r == (RequestBuilder { headers: Option::Some(headers), ..self }),
    {
        RequestBuilder { headers: Some(headers), ..self }
    }

    /// Sets the JSON body.
    pub fn body(self, body: Vec<u8>) -> (r: RequestBuilder)
        ensures
            r == (RequestBuilder { body: Option::Some(body), ..self }),
    {
        RequestBuilder { body: Some(body), ..self }
    }

    /// Overrides the pagination rule.
    pub fn pagination(self, pagination: PaginationRule) -> (r: RequestBuilder)
        ensures
            r == (RequestBuilder { pagination: RequestPagination { pagination, ..self.pagination }, ..self }),
    {
        let p = self.pagination.set_pagination(pagination);
        RequestBuilder { pagination: p, ..self }
    }

    pub fn filter(self, filter: FilterRule) -> (r: RequestBuilder)
        ensures
            r == (RequestBuilder { filter, ..self }),
    {
        RequestBuilder { filter, ..self }
    }

    pub fn sort(self, sort: SortRule) -> (r: RequestBuilder)
        ensures
            r == (RequestBuilder { sort, ..self }),
    {
        RequestBuilder { sort, ..self }
    }

    pub fn range(self, range: RangeRule) -> (r: RequestBuilder)
        ensures
            r == (RequestBuilder { range, ..self }),
    {
        RequestBuilder { range, ..self }
    }

    /// Sets the retries after a throttled response; `None` retries never.
    pub fn force_limit(self, limit: Option<u8>) -> (r: RequestBuilder)
        ensures
            r == (RequestBuilder { force_limit: limit, ..self }),
    {
        RequestBuilder { force_limit: limit, ..self }
    }

    /// The request, with everything the builder holds.
    pub fn build(self) -> (r: Request)
        ensures
            r == (Request {
                method: self.method,
                request_url: self.request_url,
                headers: self.headers,
                body: self.body,
                pagination: self.pagination,
                filter: self.filter,
                sort: self.sort,
                range: self.range,
                force_limit: self.force_limit,
            }),
    {
        Request {
            method: self.method,
            request_url: self.request_url,
            headers: self.headers,
            body: self.body,
            pagination: self.pagination,
            filter: self.filter,
            sort: self.sort,
            range: self.range,
            force_limit: self.force_limit,
        }
    }
}

} // verus!
