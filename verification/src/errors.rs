//! The errors that the service answers requests with.

use vstd::prelude::*;
use crate::crypto::{Argon2Error, Argon2ErrorKind};

verus! {

/// Why a request failed.
#[derive(Debug)]
pub enum ServiceError {
    InternalServerError,
    BadRequest(String),
    Unauthorized,
    Forbidden(String),
}

/// A failed database operation, as the storage layer reports it: an error of
/// the database itself, with its kind, message and optional details, or any
/// other failure of the connection or the query.
#[derive(Debug)]
pub enum DbError {
    Database { unique_violation: bool, message: String, details: Option<String> },
    Other,
}

/// The HTTP reply for an error: its status code, and the text that its body
/// carries as a JSON string, where it has a body.
#[derive(Debug)]
pub struct ErrorReply {
    pub status: u16,
    pub json_text: Option<String>,
}

/// The text an error displays.
pub open spec fn spec_error_text(e: ServiceError) -> Seq<char> {
    match e {
        ServiceError::InternalServerError => "Internal Server Error"@,
        ServiceError::BadRequest(m) => "BadRequest: "@ + m@,
        ServiceError::Unauthorized => "Anauthorized"@,
        ServiceError::Forbidden(m) => "Forbidden: "@ + m@,
    }
}

/// The status code of the reply to an error.
pub open spec fn spec_status(e: ServiceError) -> u16 {
    match e {
        ServiceError::InternalServerError => 500,
        ServiceError::BadRequest(_) => 400,
        ServiceError::Unauthorized => 401,
        ServiceError::Forbidden(_) => 403,
    }
}

/// The text carried by the body of the reply to an error, where it has one.
pub open spec fn spec_reply_text(e: ServiceError) -> Option<Seq<char>> {
    match e {
        ServiceError::InternalServerError => Some("Internal Server Error"@),
        ServiceError::BadRequest(m) => Some(m@),
        ServiceError::Unauthorized => None,
        ServiceError::Forbidden(m) => Some(m@),
    }
}

/// Whether an Argon2 error is about the password's length, which is the
/// client's doing.
pub open spec fn is_password_length_error(kind: Argon2ErrorKind) -> bool {
    kind == Argon2ErrorKind::PwdTooShort || kind == Argon2ErrorKind::PwdTooLong
}

impl ServiceError {
    /// The text this error displays.
    pub fn message(&self) -> (s: String)
        ensures
            s@ == spec_error_text(*self),
    {
        match self {
            ServiceError::InternalServerError => String::from_str("Internal Server Error"),
            ServiceError::BadRequest(m) => {
                let mut s = String::from_str("BadRequest: ");
                s.append(m.as_str());
                s
            },
            ServiceError::Unauthorized => String::from_str("Anauthorized"),
            ServiceError::Forbidden(m) => {
                let mut s = String::from_str("Forbidden: ");
                s.append(m.as_str());
                s
            },
        }
    }

    /// The HTTP reply to this error: 500 with the text "Internal Server
    /// Error", 400 or 403 with the error's message, 401 without a body.
    pub fn error_response(&self) -> (r: ErrorReply)
        ensures
            r.status == spec_status(*self),
            match (r.json_text, spec_reply_text(*self)) {
                (Some(t), Some(u)) => t@ == u,
                (None, None) => true,
                _ => false,
            },
    {
        match self {
            ServiceError::InternalServerError => ErrorReply {
                status: 500,
                json_text: Some(String::from_str("Internal Server Error")),
            },
            ServiceError::BadRequest(m) => ErrorReply { status: 400, json_text: Some(m.clone()) },
            ServiceError::Unauthorized => ErrorReply { status: 401, json_text: None },
            ServiceError::Forbidden(m) => ErrorReply { status: 403, json_text: Some(m.clone()) },
        }
    }

    /// The error for a failed password hash: a bad request naming the
    /// password's length where Argon2 refused that, an internal error
    /// otherwise.
    pub fn from_argon2(error: Argon2Error) -> (r: ServiceError)
        ensures
            is_password_length_error(error.kind) ==> (r matches ServiceError::BadRequest(m)
                && m@ == "password length error: "@ + error.text@),
            !is_password_length_error(error.kind) ==> r is InternalServerError,
    {
        match error.kind {
            Argon2ErrorKind::PwdTooShort | Argon2ErrorKind::PwdTooLong => {
                let mut m = String::from_str("password length error: ");
                m.append(error.text.as_str());
                ServiceError::BadRequest(m)
            },
            _ => ServiceError::InternalServerError,
        }
    }
}

/// The error for a failed database operation: a bad request for a violated
/// uniqueness constraint, carrying the database's details where it gives
/// them and its message otherwise; an internal error for anything else.
pub open spec fn spec_from_db_error(e: DbError) -> ServiceError {
    match e {
        DbError::Database { unique_violation: true, message, details } => ServiceError::BadRequest(
            match details {
                Some(d) => d,
                None => message,
            },
        ),
        _ => ServiceError::InternalServerError,
    }
}

impl From<DbError> for ServiceError {
    fn from(e: DbError) -> (r: ServiceError) {
        match e {
            DbError::Database { unique_violation, message, details } => {
                if unique_violation {
                    ServiceError::BadRequest(
                        match details {
                            Some(d) => d,
                            None => message,
                        },
                    )
                } else {
                    ServiceError::InternalServerError
                }
            },
            DbError::Other => ServiceError::InternalServerError,
        }
    }
}

impl vstd::std_specs::convert::FromSpecImpl<DbError> for ServiceError {
    open spec fn obeys_from_spec() -> bool {
        true
    }

    open spec fn from_spec(v: DbError) -> ServiceError {
        spec_from_db_error(v)
    }
}

} // verus!
