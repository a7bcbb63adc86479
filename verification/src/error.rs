use vstd::prelude::*;

verus! {

/// An error of the service layer. The messages of the errors that come from
/// outside (database, JSON, token library) are held as text.
#[derive(Debug)]
pub enum ServiceError {
    DBError(String),
    DBConnectorError(String),
    ParseError(String),
    GeneralError(String),
    Unauthorized(String),
    InvalidRequest(Box<ServiceError>),
    InternalServerError(Box<ServiceError>),
}

/// An HTTP error answer: its status code and the error whose text is its body.
#[derive(Debug)]
pub struct HttpError {
    pub status: u16,
    pub cause: ServiceError,
}

/// The HTTP answer that a service error turns into.
pub open spec fn http_error_of(e: ServiceError) -> HttpError {
    match e {
        ServiceError::InvalidRequest(inner) => HttpError { status: 400, cause: *inner },
        ServiceError::InternalServerError(inner) => HttpError { status: 500, cause: *inner },
        ServiceError::Unauthorized(msg) => HttpError { status: 401, cause: ServiceError::GeneralError(msg) },
        other => HttpError { status: 500, cause: other },
    }
}

/// Every invalid request is answered 400 Bad Request, with the inner error
/// as its body, whatever that inner error is.
pub proof fn law_invalid_request_is_bad_request(inner: ServiceError)
    ensures
        http_error_of(ServiceError::InvalidRequest(Box::new(inner))).status == 400,
        http_error_of(ServiceError::InvalidRequest(Box::new(inner))).cause == inner,
{
}

/// Every internal server error is answered 500, with the inner error as its
/// body, whatever that inner error is.
pub proof fn law_internal_error_is_500(inner: ServiceError)
    ensures
        http_error_of(ServiceError::InternalServerError(Box::new(inner))).status == 500,
        http_error_of(ServiceError::InternalServerError(Box::new(inner))).cause == inner,
{
}

/// An unauthorized request is answered 401 with its bare message; every other
/// error that is neither an invalid request nor an internal error is answered
/// 500 with the error itself as body. The only statuses are 400, 401 and 500.
pub proof fn law_other_errors_status(e: ServiceError)
    ensures
        e matches ServiceError::Unauthorized(m) ==> http_error_of(e).status == 401
            && http_error_of(e).cause == ServiceError::GeneralError(m),
        !(e is InvalidRequest || e is InternalServerError || e is Unauthorized) ==> http_error_of(
            e,
        ).status == 500 && http_error_of(e).cause == e,
        http_error_of(e).status == 400 <==> e is InvalidRequest,
        http_error_of(e).status == 401 <==> e is Unauthorized,
        http_error_of(e).status == 400 || http_error_of(e).status == 401 || http_error_of(e).status
            == 500,
{
}

impl ServiceError {
    /// Turns the error into an HTTP answer: 400 for an invalid request, 401
    /// when unauthorized, 500 otherwise. The body is the inner error of an
    /// invalid request or internal error, the bare message when unauthorized,
    /// and the error itself in all other cases.
    pub fn to_http_error(self) -> (r: HttpError)
        ensures
            r == http_error_of(self),
            self matches ServiceError::InvalidRequest(inner) ==> r.status == 400 && r.cause == *inner,
            self matches ServiceError::InternalServerError(inner) ==> r.status == 500 && r.cause
                == *inner,
            self matches ServiceError::Unauthorized(m) ==> r.status == 401 && r.cause
                == ServiceError::GeneralError(m),
            !(self is InvalidRequest || self is InternalServerError || self is Unauthorized) ==> r.status
                == 500 && r.cause == self,
    {
        match self {
            ServiceError::InvalidRequest(err) => HttpError { status: 400, cause: *err },
            ServiceError::InternalServerError(err) => HttpError { status: 500, cause: *err },
            ServiceError::Unauthorized(err) => HttpError {
                status: 401,
                cause: ServiceError::GeneralError(err),
            },
            err => HttpError { status: 500, cause: err },
        }
    }
}

} // verus!
