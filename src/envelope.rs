//! The two response shapes every outcome is wrapped in.

use vstd::prelude::*;
use vstd::string::StringExecFns;

verus! {

/// The failure shape: a short error text and, optionally, a longer one.
#[derive(Clone, Debug)]
pub struct ApiError {
    pub error: String,
    pub details: Option<String>,
}

/// The success shape: the payload and, optionally, a human message.
#[derive(Clone, Debug)]
pub struct ApiResponse<T> {
    pub data: T,
    pub message: Option<String>,
}

impl ApiError {
    /// An error carrying `error` as its text and no details.
    pub fn bare(error: &str) -> (r: ApiError)
        ensures
            r.error@ == error@,
            r.details is None,
    {
        ApiError { error: String::from_str(error), details: None }
    }
}

impl From<String> for ApiError {
    fn from(error: String) -> (r: ApiError) {
        ApiError { error, details: None }
    }
}

impl vstd::std_specs::convert::FromSpecImpl<String> for ApiError {
    open spec fn obeys_from_spec() -> bool {
        true
    }

    open spec fn from_spec(error: String) -> ApiError {
        ApiError { error, details: None }
    }
}

impl From<&str> for ApiError {
    fn from(error: &str) -> (r: ApiError)
        ensures
            r.error@ == error@,
            r.details is None,
    {
        ApiError::bare(error)
    }
}

impl vstd::std_specs::convert::FromSpecImpl<&str> for ApiError {
    open spec fn obeys_from_spec() -> bool {
        false
    }

    open spec fn from_spec(error: &str) -> ApiError {
        arbitrary()
    }
}

/// A response body: exactly one of the two shapes.
#[derive(Clone, Debug)]
pub enum Envelope<T> {
    Success(ApiResponse<T>),
    Failure(ApiError),
}

/// A response: its status code and its body.
#[derive(Clone, Debug)]
pub struct Reply<T> {
    pub status: u16,
    pub body: Envelope<T>,
}

impl<T> Reply<T> {
    /// A reply is well formed when success comes with a 2xx status and
    /// failure with a 4xx or 5xx one.
    pub open spec fn consistent(self) -> bool {
        match self.body {
            Envelope::Success(_) => 200 <= self.status < 300,
            Envelope::Failure(_) => 400 <= self.status < 600,
        }
    }
}

} // verus!
