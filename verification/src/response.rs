//! What a request is answered with: the payload and the total that goes with a
//! page, or an error with its status.

use vstd::prelude::*;
use crate::params::FormatSelect;
use crate::query::{BackendError, QueryResult};
use crate::tracking::TrackingError;
use crate::tt::TTError;

verus! {

/// A parameter of a request that was refused.
#[derive(Debug)]
pub struct FormError {
    pub name: Option<String>,
    pub value: Option<String>,
    pub kind: String,
}

/// Why a request is not answered with a payload.
#[derive(Debug)]
pub enum ApiError {
    /// Nothing matches.
    NotFound,
    /// The store or upstream failed; the text says how.
    InternalServer(String),
    /// Any other failure, with its status and its name.
    Generic(u16, String),
    /// Parameters of the request were refused.
    Form(Vec<FormError>),
}

/// The answer to a request.
#[derive(Debug)]
pub enum ApiResponse<T> {
    /// The payload, and the total number of matches where the payload is a page.
    Success(T, Option<usize>),
    Error(ApiError),
}

impl ApiError {
    /// The status of the error.
    pub open spec fn code(&self) -> u16 {
        match self {
            ApiError::NotFound => 404,
            ApiError::InternalServer(_) => 500,
            ApiError::Generic(c, _) => *c,
            ApiError::Form(_) => 422,
        }
    }

    /// The name of the error.
    pub open spec fn label(&self) -> Seq<char> {
        match self {
            ApiError::NotFound => "not found"@,
            ApiError::InternalServer(_) => "internal server error"@,
            ApiError::Generic(_, n) => n@,
            ApiError::Form(_) => "unprocessable entity"@,
        }
    }

    pub fn status(&self) -> (s: u16)
        ensures
            s == self.code(),
    {
        match self {
            Self::NotFound => 404,
            Self::InternalServer(_) => 500,
            Self::Generic(c, _) => *c,
            Self::Form(_) => 422,
        }
    }

    pub fn name(&self) -> (n: &str)
        ensures
            n@ == self.label(),
    {
        match self {
            Self::NotFound => "not found",
            Self::InternalServer(_) => "internal server error",
            Self::Generic(_, n) => n.as_str(),
            Self::Form(_) => "unprocessable entity",
        }
    }

    /// The answer that reports this error.
    pub fn respond<T>(self) -> (r: ApiResponse<T>)
        ensures
            r == ApiResponse::<T>::Error(self),
    {
        ApiResponse::Error(self)
    }

    /// The error for a failure of the store.
    pub fn backend(e: &BackendError) -> (r: Self)
        ensures
            r matches ApiError::InternalServer(m) && m@ == e.text(),
    {
        ApiError::InternalServer(e.message().to_owned())
    }

    /// The error for a request to upstream that a handler made itself and that
    /// failed: status 500, named by the failure's text.
    pub fn upstream(e: &TTError) -> (r: Self)
        ensures
            r matches ApiError::Generic(c, m) && c == 500 && m@ == e.text(),
    {
        ApiError::Generic(500, e.message().to_owned())
    }

    /// The error for an identifier in the path that cannot be read.
    pub fn invalid_identifier() -> (r: Self)
        ensures
            r matches ApiError::Form(errors) && errors@.len() == 1 && errors@[0].name is None
                && errors@[0].value is None && errors@[0].kind@ == "invalid identifier"@,
    {
        let mut errors: Vec<FormError> = Vec::new();
        errors.push(
            FormError { name: None, value: None, kind: String::from_str("invalid identifier") },
        );
        ApiError::Form(errors)
    }
}

impl<T> ApiResponse<T> {
    /// The status of the answer: 200 with a payload, else that of the error.
    pub open spec fn code(&self) -> u16 {
        match self {
            ApiResponse::Success(..) => 200,
            ApiResponse::Error(e) => e.code(),
        }
    }

    /// The total to announce beside the payload, if there is one.
    pub open spec fn announced(&self) -> Option<usize> {
        match self {
            ApiResponse::Success(_, count) => *count,
            ApiResponse::Error(_) => None,
        }
    }

    pub fn status(&self) -> (s: u16)
        ensures
            s == self.code(),
    {
        match self {
            Self::Success(..) => 200,
            Self::Error(e) => e.status(),
        }
    }

    /// The total number of matches, to be sent in the header `X-Total-Count`
    /// where there is one.
    pub fn total_count(&self) -> (count: Option<usize>)
        ensures
            count == self.announced(),
    {
        match self {
            Self::Success(_, count) => *count,
            Self::Error(_) => None,
        }
    }

    /// The answer to a lookup of one record: the record, "not found" where there
    /// is none, or the failure of the store.
    pub fn from_lookup(found: Result<Option<T>, BackendError>) -> (r: Self)
        ensures
            match found {
                Ok(Some(v)) => r == ApiResponse::Success(v, None),
                Ok(None) => r == ApiResponse::<T>::Error(ApiError::NotFound),
                Err(e) => r matches ApiResponse::Error(ApiError::InternalServer(m)) && m@
                    == e.text(),
            },
    {
        match found {
            Ok(v) => match v {
                Some(v) => ApiResponse::Success(v, None),
                None => ApiError::NotFound.respond(),
            },
            Err(e) => ApiError::backend(&e).respond(),
        }
    }

    /// The answer for a lookup that found nothing.
    pub fn not_found() -> (r: Self)
        ensures
            r == ApiResponse::<T>::Error(ApiError::NotFound),
    {
        ApiResponse::Error(ApiError::NotFound)
    }

    /// The answer for a request whose parameters were refused.
    pub fn refused(errors: Vec<FormError>) -> (r: Self)
        ensures
            r == ApiResponse::<T>::Error(ApiError::Form(errors)),
    {
        ApiError::Form(errors).respond()
    }

    /// The answer for a reconciliation that failed: an internal server error,
    /// whatever failed, with the text of the failure.
    pub fn from_tracking_error(e: &TrackingError) -> (r: Self)
        ensures
            r matches ApiResponse::Error(ApiError::InternalServer(m)) && m@ == e.text(),
    {
        ApiError::InternalServer(e.message()).respond()
    }
}

impl<T> ApiResponse<Vec<T>> {
    /// The answer to a paged query: the page with the total of the matches, or the
    /// failure of the store.
    pub fn from_query(value: Result<QueryResult<T>, BackendError>) -> (r: Self)
        ensures
            match value {
                Ok(v) => r == ApiResponse::Success(v.data, Some(v.total)),
                Err(e) => r matches ApiResponse::Error(ApiError::InternalServer(m)) && m@
                    == e.text(),
            },
    {
        match value {
            Ok(v) => ApiResponse::Success(v.data, Some(v.total)),
            Err(e) => ApiResponse::Error(ApiError::backend(&e)),
        }
    }
}

/// The answer for a failure that has no answer of its own.
pub fn api_catch_default(status: u16) -> (r: ApiResponse<()>)
    ensures
        r matches ApiResponse::Error(ApiError::Generic(c, n)) && c == status && n@
            == "generic error"@,
{
    ApiError::Generic(status, String::from_str("generic error")).respond()
}

/// The answer for a path that leads nowhere.
pub fn api_catch_404() -> (r: ApiResponse<()>)
    ensures
        r == ApiResponse::<()>::Error(ApiError::NotFound),
{
    ApiError::NotFound.respond()
}

/// A page of segments with the format in which their points are to be sent.
#[derive(Debug)]
pub struct SegmentFormatWrapper<S>(pub QueryResult<S>, pub FormatSelect);

impl<S> SegmentFormatWrapper<S> {
    /// The answer that sends the page; the total beside it is the number of
    /// segments in the page.
    pub fn into_response(self) -> (r: ApiResponse<Self>)
        ensures
            r == ApiResponse::Success(self, Some(self.0.data@.len() as usize)),
    {
        let c = self.0.data.len();
        ApiResponse::Success(self, Some(c))
    }
}

/// A failure of the store, as a plain message.
#[derive(Debug)]
pub struct DBError {
    pub message: String,
}

/// The outcome of reading from the store: the payload or the failure.
#[derive(Debug)]
pub enum DBResponse<T> {
    Success(T),
    DBError(DBError),
}

impl<T> DBResponse<T> {
    /// The status: 200 with a payload, 500 with a failure.
    pub fn status(&self) -> (s: u16)
        ensures
            s == (if *self is Success {
                200u16
            } else {
                500u16
            }),
    {
        match self {
            DBResponse::Success(_) => 200,
            DBResponse::DBError(_) => 500,
        }
    }

    pub fn from_result(value: Result<T, BackendError>) -> (r: Self)
        ensures
            match value {
                Ok(v) => r == DBResponse::Success(v),
                Err(e) => r matches DBResponse::DBError(d) && d.message@ == e.text(),
            },
    {
        match value {
            Ok(v) => DBResponse::Success(v),
            Err(e) => DBResponse::DBError(DBError { message: e.message().to_owned() }),
        }
    }
}

/// The outcome of a plain listing: the payload, or a failure without its details.
#[derive(Debug)]
pub enum GetResponse<T> {
    Success(T),
    SerializationError(String),
    DBError(String),
}

impl<T> GetResponse<T> {
    /// The status: 200 with a payload, 500 with a failure.
    pub fn status(&self) -> (s: u16)
        ensures
            s == (if *self is Success {
                200u16
            } else {
                500u16
            }),
    {
        match self {
            GetResponse::Success(_) => 200,
            _ => 500,
        }
    }

    pub fn from_result(value: Result<T, BackendError>) -> (r: Self)
        ensures
            match value {
                Ok(v) => r == GetResponse::Success(v),
                Err(_) => r matches GetResponse::DBError(m) && m@ == "error fetching data"@,
            },
    {
        match value {
            Ok(v) => GetResponse::Success(v),
            Err(_) => GetResponse::DBError(String::from_str("error fetching data")),
        }
    }
}

} // verus!
