use vstd::prelude::*;

verus! {

/// The error type of the hyper-based server variant: the service errors
/// without the connector error; outside errors are held as their messages.
#[derive(Debug)]
pub enum ServiceError {
    DBError(String),
    ParseError(String),
    GeneralError(String),
    Unauthorized(String),
    InvalidRequest(Box<ServiceError>),
    InternalServerError(Box<ServiceError>),
}

impl ServiceError {
    /// The database error with the message `msg` (what `From<debil_mysql::Error>` gives).
    pub fn from_db_error(msg: String) -> (e: ServiceError)
        ensures
            e == ServiceError::DBError(msg),
    {
        ServiceError::DBError(msg)
    }
}

} // verus!
