pub use crate::connector::{Api, AuthorizationType, Connector};
pub use crate::connector_builder::ApiBuilder;
pub use crate::error::{ApiError, ConnectorError, ErrorContext};
pub use crate::filter::{Filter, FilterRule};
pub use crate::headers::HeaderList;
pub use crate::pagination::{Pagination, PaginationRule, RequestPagination};
pub use crate::query::Query;
pub use crate::range::{Range, RangeRule};
pub use crate::rate_limiter::{RateLimiter, TimePeriod};
pub use crate::request::{Fetch, Request, Step};
pub use crate::request_builder::RequestBuilder;
pub use crate::request_url::{HttpMethod, RequestUrl};
pub use crate::sort::{Sort, SortOrder, SortRule};
