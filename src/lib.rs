//! A client toolkit for paginated REST APIs: query composition, pagination
//! policies, client-side rate limiting and the page-fetching state machine.
pub mod query;
pub mod text;
pub mod pagination;
pub mod keyed;
pub mod filter;
pub mod range;
pub mod sort;
pub mod headers;
pub mod rate_limiter;
pub mod error;
pub mod request_url;
pub mod json;
pub mod request;
pub mod fetch_laws;
pub mod connector;
pub mod connector_builder;
pub mod request_builder;
pub mod prelude;

pub use crate::connector::{Api, AuthorizationType, Connector};
pub use crate::connector_builder::ApiBuilder;
pub use crate::error::{ApiError, ConnectorError, ErrorContext};
pub use crate::pagination::{Pagination, PaginationRule, RequestPagination};
pub use crate::query::Query;
pub use crate::request::Request;
pub use crate::request_builder::RequestBuilder;
pub use crate::request_url::RequestUrl;
