use vstd::prelude::*;
use crate::error::ApiError;
use crate::filter::Filter;
use crate::keyed::pairs_query;
use crate::pagination::Pagination;
use crate::query::{query_text, Query};
use crate::range::Range;
use crate::sort::{sort_query, Sort};

verus! {

#[verifier::external_type_specification]
#[verifier::external_body]
pub struct ExUrl(url::Url);

#[verifier::external_type_specification]
#[verifier::external_body]
pub struct ExParseError(url::ParseError);

/// Whether `url::Url::parse` accepts a text.
pub uninterp spec fn url_accepted(s: Seq<char>) -> bool;

/// Relies on `url::Url::parse`, whose success depends on the text alone.
#[verifier::external_body]
fn parse_url(s: &str) -> (r: Result<url::Url, url::ParseError>)
    ensures
        r is Ok == url_accepted(s@),
{
    url::Url::parse(s)
}

/// Whether a text parses as a URL.
pub(crate) fn parse_url_text(s: &str) -> (r: bool)
    ensures
        r == url_accepted(s@),
{
    parse_url(s).is_ok()
}

/// The HTTP methods a request can use.
#[derive(Clone, Copy, Debug, PartialEq, Eq, Structural)]
pub enum HttpMethod {
    Get,
    Post,
    Put,
    Patch,
    Delete,
}

/// Whether a method carries a body.
pub open spec fn has_body(m: HttpMethod) -> bool {
    m == HttpMethod::Post || m == HttpMethod::Put || m == HttpMethod::Patch
}

impl HttpMethod {
    /// Whether the method carries a body: POST, PUT and PATCH do.
    pub fn has_body(&self) -> (r: bool)
        ensures
            r == has_body(*self),
    {
        match self {
            HttpMethod::Post | HttpMethod::Put | HttpMethod::Patch => true,
            _ => false,
        }
    }
}

/// The parameters of a request: its own, then the page, the filters, the
/// sort and the ranges.
pub open spec fn all_params<P: Pagination, F: Filter, S: Sort, R: Range>(
    base: Seq<Seq<char>>,
    pagination: P,
    filter: F,
    sort: S,
    range: R,
) -> Seq<Seq<char>> {
    base + pagination.page_query_spec() + pairs_query(filter.entries_spec())
        + sort_query(sort.entries_spec()) + pairs_query(range.entries_spec())
}

/// The text of a URL: endpoint, route and query string.
pub open spec fn url_text_of(endpoint: Seq<char>, route: Seq<char>, params: Seq<Seq<char>>) -> Seq<char> {
    endpoint + route + query_text(params)
}

/// Where a request goes: endpoint, route, query and method.
#[derive(Clone, Debug)]
pub struct RequestUrl {
    pub endpoint: String,
    pub route: String,
    pub query: Query,
    pub method: HttpMethod,
}

impl RequestUrl {
    /// The endpoint alone, with the GET method.
    pub fn new(endpoint: &str) -> (r: RequestUrl)
        ensures
            r.endpoint@ == endpoint@,
            r.route@ == Seq::<char>::empty(),
            r.query@ == Seq::<Seq<char>>::empty(),
            r.method == HttpMethod::Get,
    {
        RequestUrl {
            endpoint: String::from_str(endpoint),
            route: String::new(),
            query: Query::new(),
            method: HttpMethod::Get,
        }
    }

    pub fn method(self, method: HttpMethod) -> (r: RequestUrl)
        ensures
            r.method == method,
            r.endpoint@ == self.endpoint@,
            r.route@ == self.route@,
            r.query@ == self.query@,
    {
        RequestUrl { method, ..self }
    }

    pub fn route(self, route: &str) -> (r: RequestUrl)
        ensures
            r.route@ == route@,
            r.endpoint@ == self.endpoint@,
            r.query@ == self.query@,
            r.method == self.method,
    {
        RequestUrl { route: String::from_str(route), ..self }
    }

    pub fn query(self, query: Query) -> (r: RequestUrl)
        ensures
            r.query@ == query@,
            r.endpoint@ == self.endpoint@,
            r.route@ == self.route@,
            r.method == self.method,
    {
        RequestUrl { query, ..self }
    }

    /// Appends the parameters of `query` to those of the URL.
    pub fn join_query(self, query: Query) -> (r: RequestUrl)
        ensures
            r.query@ == self.query@ + query@,
            r.endpoint@ == self.endpoint@,
            r.route@ == self.route@,
            r.method == self.method,
    {
        let joined = self.query.join(query);
        RequestUrl { query: joined, ..self }
    }

    /// The text of the URL for the current page, with the filters, sort and
    /// ranges.
    pub fn url_text<P: Pagination, F: Filter, S: Sort, R: Range>(
        &self,
        pagination: &P,
        filter: &F,
        sort: &S,
        range: &R,
    ) -> (r: String)
        ensures
            r@ == url_text_of(
                self.endpoint@,
                self.route@,
                all_params(self.query@, *pagination, *filter, *sort, *range),
            ),
    {
        let query = self.query.clone_query();
        let query = query.join(pagination.get_current_page());
        let query = query.join(filter.to_query());
        let query = query.join(sort.to_query());
        let query = query.join(range.to_query());
        let mut text = String::from_str(self.endpoint.as_str());
        text.append(self.route.as_str());
        let tail = query.to_query_string();
        text.append(tail.as_str());
        text
    }

    /// The URL for the current page, with the filters, sort and ranges; an
    /// error when its text does not parse as a URL.
    pub fn as_url<P: Pagination, F: Filter, S: Sort, R: Range>(
        &self,
        pagination: &P,
        filter: &F,
        sort: &S,
        range: &R,
    ) -> (r: Result<url::Url, ApiError>)
        ensures
            r is Ok == url_accepted(url_text_of(
                self.endpoint@,
                self.route@,
                all_params(self.query@, *pagination, *filter, *sort, *range),
            )),
            r is Err ==> r == Err::<url::Url, ApiError>(ApiError::WrongUrlFormat),
    {
        let text = self.url_text(pagination, filter, sort, range);
        match parse_url(text.as_str()) {
            Ok(u) => Ok(u),
            Err(_) => Err(ApiError::WrongUrlFormat),
        }
    }
}

} // verus!
