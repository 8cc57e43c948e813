//! The three tiers of errors: storage failures, domain errors with a code,
//! and API errors with an HTTP status.
use vstd::prelude::*;

verus! {

/// Body of an error answer at the HTTP boundary.
#[derive(Debug)]
pub struct ErrorResponse {
    pub error: String,
    pub status_code: u16,
}

/// A domain error: a message and a numeric code.
#[derive(Debug)]
pub struct CommonError {
    pub message: String,
    pub code: u32,
}

/// An error as the HTTP boundary reports it.
#[derive(Debug)]
pub struct ApiError {
    pub error: String,
    pub status_code: u16,
}

/// What went wrong in the store.
#[derive(Clone, Copy, Debug, PartialEq, Eq, Structural)]
pub enum StorageErrorKind {
    /// No reading matched the query.
    NotFound,
    /// No connection could be acquired, or the query or insert failed.
    StorageUnavailable,
    /// The input was refused; reserved.
    Validation,
}

/// A failure reported by a repository.
#[derive(Debug)]
pub struct RepositoryError {
    pub kind: StorageErrorKind,
    pub message: String,
}

/// Code that a domain error gets where it came from a repository directly.
pub const REPOSITORY_ERROR_CODE: u32 = 1;

pub const STATUS_BAD_REQUEST: u16 = 400;

pub const STATUS_UNAUTHORIZED: u16 = 401;

pub const STATUS_FORBIDDEN: u16 = 403;

pub const STATUS_NOT_FOUND: u16 = 404;

pub const STATUS_UNPROCESSABLE: u16 = 422;

pub const STATUS_INTERNAL: u16 = 500;

/// The statuses an error answer is sent with as they are; any other is sent as 400.
pub open spec fn is_routable_status(code: u16) -> bool {
    code == 400 || code == 401 || code == 403 || code == 404 || code == 422 || code == 500
}

/// The HTTP status an error answer is sent with.
pub open spec fn response_status_of(code: u16) -> u16 {
    if is_routable_status(code) {
        code
    } else {
        STATUS_BAD_REQUEST
    }
}

/// The status code carried over from a domain code: the code itself where
/// it fits a status, else 400.
pub open spec fn status_of_code(code: u32) -> u16 {
    if code <= 65535 {
        code as u16
    } else {
        STATUS_BAD_REQUEST
    }
}

impl ApiError {
    pub fn new(error: String, status_code: u16) -> (r: ApiError)
        ensures
            r.error == error,
            r.status_code == status_code,
    {
        ApiError { error, status_code }
    }

    pub fn bad_request(error: String) -> (r: ApiError)
        ensures
            r.error == error,
            r.status_code == STATUS_BAD_REQUEST,
    {
        ApiError::new(error, STATUS_BAD_REQUEST)
    }

    pub fn internal_server_error(error: String) -> (r: ApiError)
        ensures
            r.error == error,
            r.status_code == STATUS_INTERNAL,
    {
        ApiError::new(error, STATUS_INTERNAL)
    }

    /// The API error for a domain error: same message, the code as status;
    /// a code too large for a status becomes 400.
    pub fn from_common(error: CommonError) -> (r: ApiError)
        ensures
            r.error == error.message,
            r.status_code == status_of_code(error.code),
    {
        let status: u16 = if error.code <= 65535 {
            error.code as u16
        } else {
            STATUS_BAD_REQUEST
        };
        ApiError::new(error.message, status)
    }

    /// The HTTP status the error is answered with; unknown codes become 400.
    pub fn response_status(&self) -> (r: u16)
        ensures
            r == response_status_of(self.status_code),
    {
        let c = self.status_code;
        if c == STATUS_BAD_REQUEST || c == STATUS_UNAUTHORIZED || c == STATUS_FORBIDDEN
            || c == STATUS_NOT_FOUND || c == STATUS_UNPROCESSABLE || c == STATUS_INTERNAL {
            c
        } else {
            STATUS_BAD_REQUEST
        }
    }

    /// The body of the error answer.
    pub fn error_response(&self) -> (r: ErrorResponse)
        ensures
            r.error@ == self.error@,
            r.status_code == self.status_code,
    {
        ErrorResponse { error: self.error.clone(), status_code: self.status_code }
    }
}

impl From<CommonError> for ApiError {
    fn from(error: CommonError) -> (r: ApiError) {
        ApiError::from_common(error)
    }
}

impl vstd::std_specs::convert::FromSpecImpl<CommonError> for ApiError {
    open spec fn obeys_from_spec() -> bool {
        true
    }

    open spec fn from_spec(error: CommonError) -> ApiError {
        ApiError { error: error.message, status_code: status_of_code(error.code) }
    }
}

impl RepositoryError {
    pub fn new(kind: StorageErrorKind, message: String) -> (r: RepositoryError)
        ensures
            r.kind == kind,
            r.message == message,
    {
        RepositoryError { kind, message }
    }

    /// The domain error for a repository failure that no caller classified.
    pub fn into_common(self) -> (r: CommonError)
        ensures
            r.message == self.message,
            r.code == REPOSITORY_ERROR_CODE,
    {
        CommonError { message: self.message, code: REPOSITORY_ERROR_CODE }
    }
}

impl From<RepositoryError> for CommonError {
    fn from(error: RepositoryError) -> (r: CommonError) {
        error.into_common()
    }
}

impl vstd::std_specs::convert::FromSpecImpl<RepositoryError> for CommonError {
    open spec fn obeys_from_spec() -> bool {
        true
    }

    open spec fn from_spec(error: RepositoryError) -> CommonError {
        CommonError { message: error.message, code: REPOSITORY_ERROR_CODE }
    }
}

} // verus!
