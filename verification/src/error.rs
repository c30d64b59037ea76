//! The error answered by the API.

use vstd::prelude::*;

verus! {

/// Why a request was refused or failed.
#[derive(Debug, Clone, PartialEq, Eq)]
pub enum ApiError {
    /// No usable bearer token, or Supabase Auth rejected it.
    Unauthorized,
    /// The request body is not acceptable.
    BadRequest(String),
    /// The caller may not act on the named resource.
    Forbidden(String),
    /// The named resource does not exist or is not visible to the caller.
    NotFound(String),
    /// Supabase answered with an error or could not be reached.
    Supabase(String),
    /// Supabase answered in a way the API cannot use.
    Internal,
}

impl ApiError {
    /// The HTTP status code the error is answered with.
    pub fn status_code(&self) -> (code: u16)
        ensures
            code == match self {
                ApiError::Unauthorized => 401u16,
                ApiError::BadRequest(_) => 400u16,
                ApiError::Forbidden(_) => 403u16,
                ApiError::NotFound(_) => 404u16,
                ApiError::Supabase(_) => 502u16,
                ApiError::Internal => 500u16,
            },
    {
        match self {
            ApiError::Unauthorized => 401,
            ApiError::BadRequest(_) => 400,
            ApiError::Forbidden(_) => 403,
            ApiError::NotFound(_) => 404,
            ApiError::Supabase(_) => 502,
            ApiError::Internal => 500,
        }
    }
}

} // verus!
