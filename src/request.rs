use vstd::prelude::*;
use crate::error::{check_status, status_error, status_ok, ApiError};
use crate::filter::{filter_key, filter_value, filter_with_key, Filter, FilterRule};
use crate::headers::{header_lookup, HeaderList};
use crate::json::{json_shape, parse_page, PageBody};
use crate::pagination::{page_count, resolve_page_count, Pagination, PaginationRule, RequestPagination};
use crate::query::Query;
use crate::keyed::upserted;
use crate::range::{range_key, range_value, Range, RangeRule};
use crate::rate_limiter::{updated, RateLimiter};
use crate::request_url::{all_params, has_body, parse_url_text, url_accepted, url_text_of, HttpMethod, RequestUrl};
use crate::sort::{sort_entry, sort_upserted, sort_with_entry, Sort, SortOrder, SortRule};
use crate::text::{parse_u64, parsed_u64};

verus! {

/// A request to an API: where it goes, what it carries, and its own copy of
/// the pagination, filter, sort and range state.
#[derive(Clone, Debug)]
pub struct Request {
    pub method: HttpMethod,
    pub request_url: RequestUrl,
    pub headers: Option<HeaderList>,
    /// The body, as JSON.
    pub body: Option<Vec<u8>>,
    pub pagination: RequestPagination,
    pub filter: FilterRule,
    pub sort: SortRule,
    pub range: RangeRule,
    /// Retries after a throttled response; `None` retries never.
    pub force_limit: Option<u8>,
}

/// The URL text of the request's current page.
pub open spec fn page_url(req: Request) -> Seq<char> {
    url_text_of(
        req.request_url.endpoint@,
        req.request_url.route@,
        all_params(req.request_url.query@, req.pagination, req.filter, req.sort, req.range),
    )
}

/// The request at page `p`.
pub open spec fn at_page(req: Request, p: int) -> Request {
    Request { pagination: RequestPagination { current_page: p as usize, ..req.pagination }, ..req }
}

/// Whether two requests agree on everything but their filters.
pub open spec fn same_but_filter(a: Request, b: Request) -> bool {
    a == Request { filter: a.filter, ..b }
}

/// Whether two requests agree on everything but their sorts.
pub open spec fn same_but_sort(a: Request, b: Request) -> bool {
    a == Request { sort: a.sort, ..b }
}

/// Whether two requests agree on everything but their ranges.
pub open spec fn same_but_range(a: Request, b: Request) -> bool {
    a == Request { range: a.range, ..b }
}

/// The retries a throttled request may make.
pub open spec fn retry_budget(force_limit: Option<u8>) -> u8 {
    match force_limit {
        Option::Some(k) => k,
        Option::None => 0,
    }
}

/// The number in a header, when it is there and holds one.
pub open spec fn header_number(headers: Seq<(Seq<char>, Seq<char>)>, name: Seq<char>) -> Option<u64> {
    match header_lookup(headers, name) {
        Option::Some(v) => parsed_u64(v),
        Option::None => Option::None,
    }
}

/// Which response a fetch waits for.
#[derive(Clone, Copy, Debug, PartialEq, Eq, Structural)]
pub enum FetchPhase {
    /// The response to the first page.
    First,
    /// The response to a later page.
    Pages,
}

/// The state of one fetch: the request in flight, its retries left, and the
/// pages gathered so far.
#[derive(Debug)]
pub struct Fetch {
    pub phase: FetchPhase,
    pub url: String,
    pub retries_left: u8,
    pub page_count: u64,
    pub fetched: u64,
    pub items: Vec<serde_json::Value>,
}

/// The spec form of a fetch.
pub struct FetchView {
    pub phase: FetchPhase,
    pub url: Seq<char>,
    pub retries_left: u8,
    pub page_count: nat,
    pub fetched: nat,
    pub items: Seq<serde_json::Value>,
}

impl View for Fetch {
    type V = FetchView;

    open spec fn view(&self) -> FetchView {
        FetchView {
            phase: self.phase,
            url: self.url@,
            retries_left: self.retries_left,
            page_count: self.page_count as nat,
            fetched: self.fetched as nat,
            items: self.items@,
        }
    }
}

/// What the caller does next.
#[derive(Debug)]
pub enum Step {
    /// Take a slot of the rate limiter, then send the request to this URL.
    Send(String),
    /// Send the same request again at once.
    Resend(String),
    /// Done: the body of the one response is the result.
    Whole(Vec<u8>),
    /// Done: the values of all pages, in page order.
    Items(Vec<serde_json::Value>),
    /// Done: the fetch failed, and nothing gathered is kept.
    Fail(ApiError),
}

/// The spec form of a step.
pub enum StepView {
    Send(Seq<char>),
    Resend(Seq<char>),
    Whole(Seq<u8>),
    Items(Seq<serde_json::Value>),
    Fail(ApiError),
}

impl View for Step {
    type V = StepView;

    open spec fn view(&self) -> StepView {
        match self {
            Step::Send(u) => StepView::Send(u@),
            Step::Resend(u) => StepView::Resend(u@),
            Step::Whole(b) => StepView::Whole(b@),
            Step::Items(v) => StepView::Items(v@),
            Step::Fail(e) => StepView::Fail(*e),
        }
    }
}

/// The spec form of a parsed page body.
pub enum BodyView {
    Items(Seq<serde_json::Value>),
    NotArray,
    Malformed,
}

pub open spec fn body_view(b: PageBody) -> BodyView {
    match b {
        PageBody::Items(v) => BodyView::Items(v@),
        PageBody::NotArray => BodyView::NotArray,
        PageBody::Malformed => BodyView::Malformed,
    }
}

/// The request with its pagination one page further.
pub open spec fn advanced(req: Request) -> Request {
    Request {
        pagination: RequestPagination { current_page: (req.pagination.current_page + 1) as usize, ..req.pagination },
        ..req
    }
}

/// After a page is gathered: send for the next page while pages are left,
/// else hand back all values.
pub open spec fn continue_fetch(req: Request, f: FetchView) -> (FetchView, StepView) {
    if f.fetched < f.page_count {
        let u = page_url(req);
        if url_accepted(u) {
            (FetchView { phase: FetchPhase::Pages, url: u, retries_left: retry_budget(req.force_limit), ..f }, StepView::Send(u))
        } else {
            (f, StepView::Fail(ApiError::WrongUrlFormat))
        }
    } else {
        (FetchView { items: Seq::empty(), ..f }, StepView::Items(f.items))
    }
}

/// One step of the fetch on a response of `status`, `headers` and `body`,
/// whose body reads as `parsed`: the request (its pagination may move on),
/// the fetch, and what to do next.
pub open spec fn page_step(
    req: Request,
    f: FetchView,
    status: u16,
    headers: Seq<(Seq<char>, Seq<char>)>,
    body: Seq<u8>,
    parsed: BodyView,
) -> (Request, FetchView, StepView) {
    if status == 429 && f.retries_left > 0 {
        (req, FetchView { retries_left: (f.retries_left - 1) as u8, ..f }, StepView::Resend(f.url))
    } else if !status_ok(status) {
        (req, f, StepView::Fail(status_error(status)))
    } else {
        let total = header_number(headers, "x-total"@);
        if f.phase == FetchPhase::First && (total is None || total == Option::Some(1u64)) {
            (req, f, StepView::Whole(body))
        } else {
            match parsed {
                BodyView::NotArray => (req, f, StepView::Fail(ApiError::JsonValueNotArray)),
                BodyView::Malformed => (req, f, StepView::Fail(ApiError::ResponseParse)),
                BodyView::Items(v) => {
                    if req.pagination.current_page == usize::MAX || f.fetched >= u64::MAX {
                        (req, f, StepView::Fail(ApiError::PageLimitExceeded))
                    } else {
                        let r2 = advanced(req);
                        let f2 = if f.phase == FetchPhase::First {
                            FetchView {
                                page_count: page_count(
                                    total,
                                    header_number(headers, "x-per-page"@),
                                    req.pagination.pagination,
                                ),
                                fetched: 1,
                                items: v,
                                ..f
                            }
                        } else {
                            FetchView { fetched: f.fetched + 1, items: f.items + v, ..f }
                        };
                        let (f3, st) = continue_fetch(r2, f2);
                        (r2, f3, st)
                    }
                },
            }
        }
    }
}

/// Whether a response of `status` makes the limiter read its headers.
pub open spec fn reads_limits(f: FetchView, status: u16) -> bool {
    !(status == 429 && f.retries_left > 0) && status_ok(status)
}

/// The fetch that starts a request: the first page, with the whole retry
/// budget, and the step that sends it.
pub open spec fn start_fetch(req: Request) -> (FetchView, StepView) {
    let u = page_url(req);
    let f = FetchView {
        phase: FetchPhase::First,
        url: u,
        retries_left: retry_budget(req.force_limit),
        page_count: 1,
        fetched: 0,
        items: Seq::empty(),
    };
    if url_accepted(u) {
        (f, StepView::Send(u))
    } else {
        (f, StepView::Fail(ApiError::WrongUrlFormat))
    }
}

/// Reads a number from a header.
fn header_u64(headers: &HeaderList, name: &str) -> (r: Option<u64>)
    ensures
        r == header_number(headers@, name@),
{
    match headers.get(name) {
        Some(v) => parse_u64(v.as_str()),
        None => None,
    }
}

impl Request {
    /// A request with default pagination, filter, sort and range, and no retry.
    pub fn new(method: HttpMethod, request_url: RequestUrl, headers: Option<HeaderList>, body: Option<Vec<u8>>) -> (r: Request)
        ensures
            r.method == method,
            r.request_url == request_url,
            r.headers == headers,
            r.body == body,
            r.pagination.current_page == 1,
            r.pagination.size == 100,
            r.pagination.pagination == PaginationRule::Fixed(1),
            r.filter.pattern@.len() == 0 && r.filter.filters@.len() == 0,
            r.sort.pattern@.len() == 0 && r.sort.sorts@.len() == 0,
            r.range.pattern@.len() == 0 && r.range.ranges@.len() == 0,
            r.force_limit is None,
    {
        Request {
            method,
            request_url,
            headers,
            body,
            pagination: RequestPagination::default(),
            filter: FilterRule { pattern: String::new(), filters: Vec::new() },
            sort: SortRule { pattern: String::new(), sorts: Vec::new() },
            range: RangeRule { pattern: String::new(), ranges: Vec::new() },
            force_limit: None,
        }
    }

    /// The URL text of the current page.
    pub fn current_url(&self) -> (r: String)
        ensures
            r@ == page_url(*self),
    {
        self.request_url.url_text(&self.pagination, &self.filter, &self.sort, &self.range)
    }

    /// Starts a fetch at the current page.
    pub fn start(&self) -> (r: (Fetch, Step))
        ensures
            (r.0@, r.1@) == start_fetch(*self),
    {
        let u = self.current_url();
        let accepted = parse_url_text(u.as_str());
        let budget = match self.force_limit {
            Some(k) => k,
            None => 0,
        };
        let step = if accepted { Step::Send(u.clone()) } else { Step::Fail(ApiError::WrongUrlFormat) };
        let f = Fetch {
            phase: FetchPhase::First,
            url: u,
            retries_left: budget,
            page_count: 1,
            fetched: 0,
            items: Vec::new(),
        };
        proof {
            assert(f@.items =~= Seq::<serde_json::Value>::empty());
        }
        (f, step)
    }

    /// Sends for the next page while pages are left, else hands back all values.
    fn continue_fetch(&self, fetch: &mut Fetch) -> (r: Step)
        ensures
            (final(fetch)@, r@) == continue_fetch(*self, old(fetch)@),
    {
        if fetch.fetched < fetch.page_count {
            let u = self.current_url();
            if parse_url_text(u.as_str()) {
                fetch.phase = FetchPhase::Pages;
                fetch.retries_left = match self.force_limit {
                    Some(k) => k,
                    None => 0,
                };
                fetch.url = u.clone();
                Step::Send(u)
            } else {
                Step::Fail(ApiError::WrongUrlFormat)
            }
        } else {
            let mut items = Vec::new();
            std::mem::swap(&mut items, &mut fetch.items);
            proof {
                assert(fetch@ == (FetchView { items: Seq::empty(), ..old(fetch)@ }));
            }
            Step::Items(items)
        }
    }

    /// One step of the fetch on a response whose body reads as `parsed`, as
    /// `page_step` describes; the limiter reads the headers of a response
    /// that is neither retried nor an error.
    pub fn on_page(
        &mut self,
        fetch: &mut Fetch,
        limiter: &mut RateLimiter,
        status: u16,
        headers: &HeaderList,
        body: Vec<u8>,
        parsed: PageBody,
    ) -> (r: Step)
        ensures
            (*final(self), final(fetch)@, r@) == page_step(*old(self), old(fetch)@, status, headers@, body@, body_view(parsed)),
            *final(limiter) == if reads_limits(old(fetch)@, status) {
                updated(*old(limiter), headers@)
            } else {
                *old(limiter)
            },
    {
        if status == 429 && fetch.retries_left > 0 {
            fetch.retries_left = fetch.retries_left - 1;
            return Step::Resend(fetch.url.clone());
        }
        match check_status(status) {
            Err(e) => {
                return Step::Fail(e);
            },
            Ok(()) => {},
        }
        limiter.update(headers);
        let total = header_u64(headers, "x-total");
        proof {
            reveal_strlit("x-total");
            reveal_strlit("x-per-page");
        }
        let first = match fetch.phase {
            FetchPhase::First => true,
            FetchPhase::Pages => false,
        };
        if first {
            let single = match total {
                None => true,
                Some(t) => t == 1,
            };
            if single {
                return Step::Whole(body);
            }
        }
        match parsed {
            PageBody::NotArray => Step::Fail(ApiError::JsonValueNotArray),
            PageBody::Malformed => Step::Fail(ApiError::ResponseParse),
            PageBody::Items(v) => {
                if self.pagination.current_page == usize::MAX || fetch.fetched == u64::MAX {
                    return Step::Fail(ApiError::PageLimitExceeded);
                }
                if first {
                    let per_page = header_u64(headers, "x-per-page");
                    fetch.page_count = resolve_page_count(total, per_page, self.pagination.pagination);
                    fetch.fetched = 1;
                    fetch.items = v;
                } else {
                    let mut v = v;
                    fetch.fetched = fetch.fetched + 1;
                    fetch.items.append(&mut v);
                }
                self.pagination.next();
                self.continue_fetch(fetch)
            },
        }
    }

    /// One step of the fetch on a response: reads the body as JSON, then goes
    /// on as `on_page` does.
    pub fn on_response(
        &mut self,
        fetch: &mut Fetch,
        limiter: &mut RateLimiter,
        status: u16,
        headers: &HeaderList,
        body: Vec<u8>,
    ) -> (r: Step)
        ensures
            exists|parsed: PageBody|
                (*final(self), final(fetch)@, r@) == page_step(*old(self), old(fetch)@, status, headers@, body@, body_view(parsed))
                && match parsed {
                    PageBody::Items(v) => json_shape(body@) == Option::Some(Option::Some(v@.len())),
                    PageBody::NotArray => json_shape(body@) == Option::Some(Option::<nat>::None),
                    PageBody::Malformed => json_shape(body@) == Option::<Option<nat>>::None,
                },
            *final(limiter) == if reads_limits(old(fetch)@, status) {
                updated(*old(limiter), headers@)
            } else {
                *old(limiter)
            },
    {
        let parsed = parse_page(body.as_slice());
        let ghost pv = parsed;
        let r = self.on_page(fetch, limiter, status, headers, body, parsed);
        assert((*self, fetch@, r@) == page_step(*old(self), old(fetch)@, status, headers@, body@, body_view(pv)));
        r
    }
}

impl Request {
    /// Sets the pagination back to page 1.
    pub fn reset_pagination(&mut self)
        ensures
            *final(self) == at_page(*old(self), 1),
    {
        self.pagination.reset();
    }

    /// Overrides the pagination rule of this request.
    pub fn pagination(self, pagination: PaginationRule) -> (r: Request)
        ensures
            r == (Request { pagination: RequestPagination { pagination, ..self.pagination }, ..self }),
    {
        let p = self.pagination.set_pagination(pagination);
        Request { pagination: p, ..self }
    }

    pub fn set_filter(self, filter: FilterRule) -> (r: Request)
        ensures
            r == (Request { filter, ..self }),
    {
        Request { filter, ..self }
    }

    pub fn set_sort(self, sort: SortRule) -> (r: Request)
        ensures
            r == (Request { sort, ..self }),
    {
        Request { sort, ..self }
    }

    pub fn set_range(self, range: RangeRule) -> (r: Request)
        ensures
            r == (Request { range, ..self }),
    {
        Request { range, ..self }
    }

    /// Sets the filter pattern.
    pub fn pattern_filter(self, pattern: &str) -> (r: Request)
        ensures
            same_but_filter(r, self),
            r.filter.pattern_spec() == pattern@,
            r.filter.entries_spec() == self.filter.entries_spec(),
    {
        let Request { method, request_url, headers, body, pagination, filter, sort, range, force_limit } = self;
        let filter = filter.pattern(pattern);
        Request { method, request_url, headers, body, pagination, filter, sort, range, force_limit }
    }

    /// Filters `property` on `value`.
    pub fn filter(self, property: &str, value: &Vec<String>) -> (r: Request)
        ensures
            same_but_filter(r, self),
            r.filter.pattern_spec() == self.filter.pattern_spec(),
            r.filter.entries_spec() == upserted(
                self.filter.entries_spec(),
                filter_key(self.filter.pattern_spec(), property@),
                filter_value(value@),
            ),
    {
        let Request { method, request_url, headers, body, pagination, filter, sort, range, force_limit } = self;
        let filter = filter.filter(property, value);
        Request { method, request_url, headers, body, pagination, filter, sort, range, force_limit }
    }

    /// Filters `property` through the operator `filter` on `value`.
    pub fn filter_with(self, property: &str, filter: &str, value: &Vec<String>) -> (r: Request)
        ensures
            same_but_filter(r, self),
            r.filter.pattern_spec() == self.filter.pattern_spec(),
            r.filter.entries_spec() == upserted(
                self.filter.entries_spec(),
                filter_with_key(self.filter.pattern_spec(), property@, filter@),
                filter_value(value@),
            ),
    {
        let Request { method, request_url, headers, body, pagination, filter: f, sort, range, force_limit } = self;
        let f = f.filter_with(property, filter, value);
        Request { method, request_url, headers, body, pagination, filter: f, sort, range, force_limit }
    }

    /// Sets the sort pattern.
    pub fn pattern_sort(self, pattern: &str) -> (r: Request)
        ensures
            same_but_sort(r, self),
            r.sort.pattern_spec() == pattern@,
            r.sort.entries_spec() == self.sort.entries_spec(),
    {
        let Request { method, request_url, headers, body, pagination, filter, sort, range, force_limit } = self;
        let sort = sort.pattern(pattern);
        Request { method, request_url, headers, body, pagination, filter, sort, range, force_limit }
    }

    /// Sorts on `property`.
    pub fn sort(self, property: &str) -> (r: Request)
        ensures
            same_but_sort(r, self),
            r.sort.pattern_spec() == self.sort.pattern_spec(),
            r.sort.entries_spec() == sort_upserted(
                self.sort.entries_spec(),
                sort_entry(self.sort.pattern_spec(), property@),
            ),
    {
        let Request { method, request_url, headers, body, pagination, filter, sort, range, force_limit } = self;
        let sort = sort.sort(property);
        Request { method, request_url, headers, body, pagination, filter, sort, range, force_limit }
    }

    /// Sorts on `property` in the direction `order`.
    pub fn sort_with(self, property: &str, order: SortOrder) -> (r: Request)
        ensures
            same_but_sort(r, self),
            r.sort.pattern_spec() == self.sort.pattern_spec(),
            r.sort.entries_spec() == sort_upserted(
                self.sort.entries_spec(),
                sort_with_entry(self.sort.pattern_spec(), property@, order),
            ),
    {
        let Request { method, request_url, headers, body, pagination, filter, sort, range, force_limit } = self;
        let sort = sort.sort_with(property, order);
        Request { method, request_url, headers, body, pagination, filter, sort, range, force_limit }
    }

    /// Sets the range pattern.
    pub fn pattern_range(self, pattern: &str) -> (r: Request)
        ensures
            same_but_range(r, self),
            r.range.pattern_spec() == pattern@,
            r.range.entries_spec() == self.range.entries_spec(),
    {
        let Request { method, request_url, headers, body, pagination, filter, sort, range, force_limit } = self;
        let range = range.pattern(pattern);
        Request { method, request_url, headers, body, pagination, filter, sort, range, force_limit }
    }

    /// Restricts `property` to the range from `min` to `max`.
    pub fn range(self, property: &str, min: &str, max: &str) -> (r: Request)
        ensures
            same_but_range(r, self),
            r.range.pattern_spec() == self.range.pattern_spec(),
            r.range.entries_spec() == upserted(
                self.range.entries_spec(),
                range_key(self.range.pattern_spec(), property@),
                range_value(min@, max@),
            ),
    {
        let Request { method, request_url, headers, body, pagination, filter, sort, range, force_limit } = self;
        let range = range.range(property, min, max);
        Request { method, request_url, headers, body, pagination, filter, sort, range, force_limit }
    }

    /// Sets the retries after a throttled response; `None` retries never.
    pub fn force_limite(self, limit: Option<u8>) -> (r: Request)
        ensures
            r == (Request { force_limit: limit, ..self }),
    {
        Request { force_limit: limit, ..self }
    }

    /// Sets the JSON body; only POST, PUT and PATCH carry one, and the
    /// request of another method is left as it is.
    pub fn body(self, body: Vec<u8>) -> (r: Request)
        ensures
            has_body(self.method) ==> r == (Request { body: Option::Some(body), ..self }),
            !has_body(self.method) ==> r == self,
    {
        if self.method.has_body() {
            Request { body: Some(body), ..self }
        } else {
            self
        }
    }

    /// Appends parameters to the request's own query.
    pub fn query(self, query: Query) -> (r: Request)
        ensures
            r.request_url.query@ == self.request_url.query@ + query@,
            r.request_url.endpoint@ == self.request_url.endpoint@,
            r.request_url.route@ == self.request_url.route@,
            r.request_url.method == self.request_url.method,
            r == (Request { request_url: r.request_url, ..self }),
    {
        let Request { method, request_url, headers, body, pagination, filter, sort, range, force_limit } = self;
        let request_url = request_url.join_query(query);
        Request { method, request_url, headers, body, pagination, filter, sort, range, force_limit }
    }
}

} // verus!
