//! The uniform response envelope: every API outcome is either data, an
//! error object, or a bare status code, and the wire object carries
//! exactly one of data and error.

use vstd::prelude::*;

verus! {

pub const STATUS_OK: u16 = 200;

pub const STATUS_BAD_REQUEST: u16 = 400;

pub const STATUS_UNAUTHORIZED: u16 = 401;

pub const STATUS_FORBIDDEN: u16 = 403;

pub const STATUS_NOT_FOUND: u16 = 404;

pub const STATUS_NOT_ACCEPTABLE: u16 = 406;

pub const STATUS_INTERNAL_SERVER_ERROR: u16 = 500;

/// The three shapes a response can take.
#[derive(Clone, Copy, Debug, PartialEq, Eq, Structural)]
pub enum ApiResponseType {
    SuccessWithData,
    StatusCodeOnly,
    Error,
}

impl Default for ApiResponseType {
    fn default() -> (r: Self)
        ensures
            r == ApiResponseType::SuccessWithData,
    {
        ApiResponseType::SuccessWithData
    }
}

/// An error payload: a bare message, or a message with structured detail.
#[derive(Debug)]
pub enum ApiResponseError<T> {
    Simple(String),
    Complicated { message: String, error: T },
}

impl<T> ApiResponseError<T> {
    /// A message-only error.
    pub fn simple_error(msg: &'static str) -> (r: Self)
        ensures
            r matches ApiResponseError::Simple(m) && m@ == msg@,
    {
        ApiResponseError::Simple(String::from_str(msg))
    }

    /// A message with structured detail.
    pub fn complicated_error(msg: &'static str, error: T) -> (r: Self)
        ensures
            r matches ApiResponseError::Complicated { message, error: e } && message@ == msg@ && e
                == error,
    {
        ApiResponseError::Complicated { message: String::from_str(msg), error }
    }
}

/// The wire shape of an error: a message and optional structured detail.
#[derive(Debug)]
pub struct ApiResponseErrorObject<T> {
    pub message: String,
    pub error: Option<T>,
}

/// The wire object an error payload flattens to.
pub open spec fn error_object_of<T>(e: ApiResponseError<T>) -> ApiResponseErrorObject<T> {
    match e {
        ApiResponseError::Simple(message) => ApiResponseErrorObject { message, error: None },
        ApiResponseError::Complicated { message, error } => ApiResponseErrorObject {
            message,
            error: Some(error),
        },
    }
}

impl<T> ApiResponseError<T> {
    /// Flattens the error payload to its wire object.
    pub fn into_object(self) -> (r: ApiResponseErrorObject<T>)
        ensures
            r == error_object_of(self),
    {
        match self {
            ApiResponseError::Simple(message) => ApiResponseErrorObject { message, error: None },
            ApiResponseError::Complicated { message, error } => ApiResponseErrorObject {
                message,
                error: Some(error),
            },
        }
    }
}

/// A computed response: data with a status, an error with a status, or a
/// bare status code.
#[derive(Debug)]
pub enum ApiResponseData<T> {
    Data { data: T, status: u16 },
    Error { error: ApiResponseError<T>, status: u16 },
    StatusCode(u16),
}

/// A handler outcome: a success response or an error response.
pub type ApiResponse<T, E> = Result<ApiResponseData<T>, ApiResponseData<E>>;

impl<T> ApiResponseData<T> {
    /// A success response carrying data.
    pub fn success_with_data(data: T, status: u16) -> (r: Self)
        ensures
            r == (ApiResponseData::Data { data, status }),
    {
        ApiResponseData::Data { data, status }
    }

    /// A bare status code.
    pub fn status_code(status: u16) -> (r: Self)
        ensures
            r == ApiResponseData::<T>::StatusCode(status),
    {
        ApiResponseData::StatusCode(status)
    }

    /// An error response: message-only when no detail is given.
    pub fn error(error: Option<T>, message: &'static str, status: u16) -> (r: Self)
        ensures
            r matches ApiResponseData::Error { error: e, status: s } && s == status,
            error matches Some(detail) ==> (r matches ApiResponseData::Error { error: e, .. }
                && e matches ApiResponseError::Complicated { message: m, error: d } && m@
                == message@ && d == detail),
            error is None ==> (r matches ApiResponseData::Error { error: e, .. }
                && e matches ApiResponseError::Simple(m) && m@ == message@),
    {
        match error {
            Some(err) => ApiResponseData::Error {
                error: ApiResponseError::complicated_error(message, err),
                status,
            },
            None => ApiResponseData::Error {
                error: ApiResponseError::simple_error(message),
                status,
            },
        }
    }
}

/// The wire envelope: exactly one of `data` and `error` is populated.
#[derive(Debug)]
pub struct ApiResponseObject<T> {
    pub data: Option<T>,
    pub error: Option<ApiResponseErrorObject<T>>,
}

impl<T> ApiResponseObject<T> {
    /// Exactly one of the two sides is populated.
    pub open spec fn wf(self) -> bool {
        (self.data is Some) <==> (self.error is None)
    }
}

impl<T> ApiResponseData<T> {
    /// The status code and, unless the response is status-only, the wire
    /// envelope with exactly one populated side.
    pub fn into_parts(self) -> (r: (u16, Option<ApiResponseObject<T>>))
        ensures
            self matches ApiResponseData::Data { data, status } ==> (r.1 matches Some(o)
                && o.wf() && o.data == Some(data) && o.error is None && r.0 == status),
            self matches ApiResponseData::Error { error, status } ==> (r.1 matches Some(o)
                && o.wf() && o.data is None && o.error == Some(error_object_of(error)) && r.0
                == status),
            self matches ApiResponseData::StatusCode(status) ==> (r.0 == status && r.1 is None),
    {
        match self {
            ApiResponseData::Data { data, status } => (
                status,
                Some(ApiResponseObject { data: Some(data), error: None }),
            ),
            ApiResponseData::Error { error, status } => (
                status,
                Some(ApiResponseObject { data: None, error: Some(error.into_object()) }),
            ),
            ApiResponseData::StatusCode(status) => (status, None),
        }
    }
}

} // verus!
