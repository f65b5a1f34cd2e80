//! The error taxonomy of the gateway and its mapping to HTTP status codes.

use vstd::prelude::*;

verus! {

/// Every failure the core can report, by kind. Local, recoverable absence
/// (a missing customer record, a corp person that does not exist) is never
/// an error: it is an `Option` in the result types instead.
#[derive(Clone, Copy, Debug, PartialEq, Eq, Structural)]
pub enum ApiError {
    /// The caller's input was rejected before any side effect.
    InvalidInput,
    /// No credential was presented (empty bearer token).
    Unauthenticated,
    /// The credential was rejected, or it resolved to no identity.
    Unauthorized,
    /// Authenticated, but not allowed to touch this resource.
    Forbidden,
    /// The resource is absent where absence is an error.
    NotFound,
    /// A required external source was unreachable or invalid, and the
    /// whole aggregate call was aborted because of it.
    FailedDependency,
    /// A downstream transport failure or timeout.
    Unavailable,
    /// An unexpected failure or a broken internal invariant.
    Internal,
}

impl ApiError {
    /// The status code the boundary answers with for this kind.
    pub fn http_status(&self) -> (code: u16)
        ensures
            code == self.spec_http_status(),
    {
        match self {
            ApiError::InvalidInput => 400,
            ApiError::Unauthenticated => 401,
            ApiError::Unauthorized => 401,
            ApiError::Forbidden => 403,
            ApiError::NotFound => 404,
            ApiError::FailedDependency => 424,
            ApiError::Unavailable => 500,
            ApiError::Internal => 500,
        }
    }

    pub open spec fn spec_http_status(self) -> u16 {
        match self {
            ApiError::InvalidInput => 400,
            ApiError::Unauthenticated => 401,
            ApiError::Unauthorized => 401,
            ApiError::Forbidden => 403,
            ApiError::NotFound => 404,
            ApiError::FailedDependency => 424,
            ApiError::Unavailable => 500,
            ApiError::Internal => 500,
        }
    }

    /// A generic, caller-safe message: never any internal detail.
    pub fn message(&self) -> &'static str {
        match self {
            ApiError::InvalidInput => "invalid input",
            ApiError::Unauthenticated => "authentication required",
            ApiError::Unauthorized => "unauthorized",
            ApiError::Forbidden => "forbidden",
            ApiError::NotFound => "not found",
            ApiError::FailedDependency => "a required dependency failed",
            ApiError::Unavailable => "service unavailable",
            ApiError::Internal => "internal error",
        }
    }
}

} // verus!
