//! Errors of the engine and of the service around it.

use vstd::prelude::*;

verus! {

/// Why a bucket of ratings could not be aggregated, or a reconciliation could
/// not start.
#[derive(Debug)]
pub enum AggregationError {
    /// The store failed to answer; the message is the store's.
    StoreUnavailable(String),
    /// What came back was no answer to what was asked.
    UnexpectedReply,
    /// There was no rating to aggregate.
    EmptyBucket,
    /// The mean has more digits after the decimal point than a decimal can
    /// carry.
    AverageOutOfRange,
}

impl Clone for AggregationError {
    fn clone(&self) -> (r: Self)
        ensures
            r == *self,
    {
        match self {
            AggregationError::StoreUnavailable(message) => AggregationError::StoreUnavailable(
                message.clone(),
            ),
            AggregationError::UnexpectedReply => AggregationError::UnexpectedReply,
            AggregationError::EmptyBucket => AggregationError::EmptyBucket,
            AggregationError::AverageOutOfRange => AggregationError::AverageOutOfRange,
        }
    }
}

/// Why a run of the engine stopped: the attractions could not be listed.
#[derive(Debug)]
pub enum EngineError {
    /// The store failed to answer; the message is the store's.
    StoreUnavailable(String),
    /// What came back was no answer to what was asked.
    UnexpectedReply,
}

impl Clone for EngineError {
    fn clone(&self) -> (r: Self)
        ensures
            r == *self,
    {
        match self {
            EngineError::StoreUnavailable(message) => EngineError::StoreUnavailable(message.clone()),
            EngineError::UnexpectedReply => EngineError::UnexpectedReply,
        }
    }
}

/// What the service can fail with.
#[derive(Clone, Copy, Debug, PartialEq, Eq, Structural)]
pub enum Error {
    LoginFail,
    AuthFailNoAuthTokenCookie,
    AuthFailTokenWrongFormat,
    AuthFailCtxNotInRequestExt,
    AttractionNotFound { id: i32 },
    GenerateSimilarityFail,
}

/// What a client is told of a failure.
#[derive(Clone, Copy, Debug, PartialEq, Eq, Structural)]
#[allow(non_camel_case_types)]
pub enum ClientError {
    LOGIN_FAIL,
    NO_AUTH,
    INVALID_PARAMS,
    SERVICE_ERROR,
}

/// HTTP status 403.
pub const FORBIDDEN: u16 = 403;

/// HTTP status 404.
pub const NOT_FOUND: u16 = 404;

/// HTTP status 500.
pub const INTERNAL_SERVER_ERROR: u16 = 500;

impl Error {
    /// The HTTP status and the client-facing error that stand for this
    /// error.
    pub open spec fn status_and_client_error(self) -> (u16, ClientError) {
        match self {
            Error::LoginFail => (FORBIDDEN, ClientError::LOGIN_FAIL),
            Error::AuthFailNoAuthTokenCookie
            | Error::AuthFailTokenWrongFormat
            | Error::AuthFailCtxNotInRequestExt => (FORBIDDEN, ClientError::NO_AUTH),
            Error::AttractionNotFound { .. } => (NOT_FOUND, ClientError::INVALID_PARAMS),
            Error::GenerateSimilarityFail => (INTERNAL_SERVER_ERROR, ClientError::SERVICE_ERROR),
        }
    }

    /// The HTTP status and the client-facing error that stand for this
    /// error.
    pub fn client_status_and_error(&self) -> (r: (u16, ClientError))
        ensures
            r == self.status_and_client_error(),
    {
        match self {
            Error::LoginFail => (FORBIDDEN, ClientError::LOGIN_FAIL),
            Error::AuthFailNoAuthTokenCookie
            | Error::AuthFailTokenWrongFormat
            | Error::AuthFailCtxNotInRequestExt => (FORBIDDEN, ClientError::NO_AUTH),
            Error::AttractionNotFound { .. } => (NOT_FOUND, ClientError::INVALID_PARAMS),
            Error::GenerateSimilarityFail => (INTERNAL_SERVER_ERROR, ClientError::SERVICE_ERROR),
        }
    }
}

} // verus!
