use vstd::prelude::*;

verus! {

/// The ways a request can fail.
#[derive(Debug, PartialEq, Eq)]
pub enum ApiError {
    NotFound,
    Unauthorized,
    TooManyRequests,
    BadRequest,
    InternalServerError,
    PaginationDone,
    PageLimitExceeded,
    /// A page's body is JSON but not an array.
    JsonValueNotArray,
    /// A body is not the JSON that was expected.
    ResponseParse,
    /// A response's body could not be read.
    ResponseToText,
    /// The request could not be sent.
    ReqwestExecute,
    ReqwestClone,
    /// The request could not be built.
    ReqwestBuilder,
    /// The body could not be written as JSON.
    BodySerialization,
    /// The URL does not parse.
    WrongUrlFormat,
    /// A header value holds a character that headers cannot carry.
    InvalidHeaderValue,
    /// An error, annotated with the operation that failed.
    Connector(Box<ApiError>, ConnectorError),
}

/// Marks an error as coming from a connector's operation.
#[derive(Clone, Copy, Debug, PartialEq, Eq, Structural)]
pub struct ConnectorError;

/// Whether an HTTP status counts as success: 200, 201, 202 or 204.
pub open spec fn status_ok(code: u16) -> bool {
    code == 200 || code == 201 || code == 202 || code == 204
}

/// The error an HTTP status stands for.
pub open spec fn status_error(code: u16) -> ApiError {
    if code == 404 {
        ApiError::NotFound
    } else if code == 401 {
        ApiError::Unauthorized
    } else if code == 429 {
        ApiError::TooManyRequests
    } else if code == 500 {
        ApiError::InternalServerError
    } else {
        ApiError::BadRequest
    }
}

impl ApiError {
    /// The error an HTTP status stands for: 404, 401, 429 and 500 have their
    /// own; any other is a bad request.
    pub fn from_status(code: u16) -> (r: ApiError)
        ensures
            r == status_error(code),
    {
        if code == 404 {
            ApiError::NotFound
        } else if code == 401 {
            ApiError::Unauthorized
        } else if code == 429 {
            ApiError::TooManyRequests
        } else if code == 500 {
            ApiError::InternalServerError
        } else {
            ApiError::BadRequest
        }
    }
}

/// Success for 200, 201, 202 and 204; the status's error otherwise.
pub fn check_status(code: u16) -> (r: Result<(), ApiError>)
    ensures
        status_ok(code) ==> r is Ok,
        !status_ok(code) ==> r == Err::<(), ApiError>(status_error(code)),
{
    if code == 200 || code == 201 || code == 202 || code == 204 {
        Ok(())
    } else {
        Err(ApiError::from_status(code))
    }
}

/// Annotates the error of a result with a context.
pub trait ErrorContext<T, E>: Sized {
    spec fn with_context(self, context: E) -> Result<T, ApiError>;

    fn err_ctx(self, context: E) -> (r: Result<T, ApiError>)
        ensures
            r == self.with_context(context);
}

impl<T> ErrorContext<T, ConnectorError> for Result<T, ApiError> {
    open spec fn with_context(self, context: ConnectorError) -> Result<T, ApiError> {
        match self {
            Ok(v) => Ok(v),
            Err(e) => Err(ApiError::Connector(Box::new(e), context)),
        }
    }

    fn err_ctx(self, context: ConnectorError) -> (r: Result<T, ApiError>) {
        match self {
            Ok(v) => Ok(v),
            Err(e) => Err(ApiError::Connector(Box::new(e), context)),
        }
    }
}

} // verus!
