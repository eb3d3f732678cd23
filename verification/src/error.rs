//! Error taxonomy of the backend, and the translator that turns low-level
//! constraint violations reported by the data store into typed domain
//! errors.
//!
//! The store enforces invariants (unique names, valid foreign keys,
//! self-reference prevention) at the schema level.  [`translate`] and
//! [`on_constraint`] are the single seam that turns those failures into
//! the domain vocabulary of the response layer, so that no caller has to
//! pre-check conditions with extra queries and race against the insert.

use tokio_postgres::Error as TokioPgError;
use vstd::prelude::*;

verus! {

/// A typed, JSON-presentable domain error.  Its message, never the raw
/// store error text, is what a client sees.
#[derive(Clone, Copy, Debug, PartialEq, Eq, Structural)]
pub enum JsonError {
    /// The referenced user does not exist.
    UnknownUser,
    /// The referenced emote does not exist.
    UnknownEmote,
    /// The referenced emote set does not exist.
    UnknownEmoteSet,
    /// A user tried to add themselves as an editor of their own channel.
    UserCannotAddSelf,
    /// Credentials are missing or do not use the bearer scheme.
    Unauthorized,
    /// Credentials are present but match no session.
    InvalidToken,
    /// The resolved identity lacks the required capability.
    Forbidden,
    /// A color with the same name already exists.
    ColorExists,
}

impl JsonError {
    /// The HTTP status code a response built from this error carries.
    pub open spec fn spec_status_code(self) -> u32 {
        match self {
            JsonError::UserCannotAddSelf => 400,
            JsonError::Unauthorized | JsonError::InvalidToken => 401,
            JsonError::Forbidden => 403,
            JsonError::UnknownUser | JsonError::UnknownEmote | JsonError::UnknownEmoteSet => 404,
            JsonError::ColorExists => 409,
        }
    }

    /// Status code of this error: 400 for a self-editor insertion, 401 for
    /// missing or invalid credentials, 403 for a missing capability, 404
    /// for an unknown entity, 409 for a duplicate color name.
    pub fn status_code(self) -> (code: u32)
        ensures
            code == self.spec_status_code(),
    {
        match self {
            JsonError::UserCannotAddSelf => 400,
            JsonError::Unauthorized | JsonError::InvalidToken => 401,
            JsonError::Forbidden => 403,
            JsonError::UnknownUser | JsonError::UnknownEmote | JsonError::UnknownEmoteSet => 404,
            JsonError::ColorExists => 409,
        }
    }

    /// The user-visible message of this error.
    pub open spec fn spec_message(self) -> Seq<char> {
        match self {
            JsonError::UnknownUser => "Unknown user."@,
            JsonError::UnknownEmote => "Unknown emote."@,
            JsonError::UnknownEmoteSet => "Unknown emote set."@,
            JsonError::UserCannotAddSelf => "User cannot add themselves as an editor to their own channel."@,
            JsonError::Unauthorized => "Unauthorized."@,
            JsonError::InvalidToken => "Invalid bearer token."@,
            JsonError::Forbidden => "Forbidden."@,
            JsonError::ColorExists => "Color already exists."@,
        }
    }

    /// The message shown to a client for this error.
    pub fn message(self) -> (m: String)
        ensures
            m@ == self.spec_message(),
    {
        match self {
            JsonError::UnknownUser => "Unknown user.".to_owned(),
            JsonError::UnknownEmote => "Unknown emote.".to_owned(),
            JsonError::UnknownEmoteSet => "Unknown emote set.".to_owned(),
            JsonError::UserCannotAddSelf => "User cannot add themselves as an editor to their own channel.".to_owned(),
            JsonError::Unauthorized => "Unauthorized.".to_owned(),
            JsonError::InvalidToken => "Invalid bearer token.".to_owned(),
            JsonError::Forbidden => "Forbidden.".to_owned(),
            JsonError::ColorExists => "Color already exists.".to_owned(),
        }
    }
}

/// What the library keeps of a data-store failure: the name of the
/// violated constraint, when the store reported one, and the printable
/// driver message, preserved for logging and never shown to a client.
#[derive(Clone, Debug, PartialEq, Eq)]
pub struct StoreError {
    /// Name of the violated uniqueness or foreign-key constraint, if any.
    pub constraint: Option<String>,
    /// The driver's own description of the failure.
    pub message: String,
}

/// A request-level error, carried up to the response layer.
#[derive(Clone, Debug, PartialEq, Eq)]
pub enum Error {
    /// The request itself is invalid; carries the client-visible message.
    BadRequest(String),
    /// The referenced resource does not exist.
    NotFound(String),
    /// Credentials are missing, malformed, or unresolvable.
    Unauthorized(String),
    /// The resolved identity lacks the required capability.
    Forbidden(String),
    /// A business rule was violated, such as a duplicate name.
    Conflict(String),
    /// The request body could not be processed.
    UnprocessableEntity,
    /// The content-delivery backend failed.
    Cdn,
    /// The data store failed; the original failure is kept for logging.
    Database(StoreError),
    /// Any other internal failure.
    Generic,
}

impl Error {
    /// The HTTP status code a response built from this error carries.
    pub open spec fn spec_status_code(self) -> u16 {
        match self {
            Error::BadRequest(_) => 400,
            Error::NotFound(_) => 404,
            Error::Unauthorized(_) => 401,
            Error::Forbidden(_) => 403,
            Error::Conflict(_) => 409,
            Error::UnprocessableEntity => 422,
            Error::Cdn | Error::Database(_) | Error::Generic => 500,
        }
    }

    /// Status code of this error; every internal failure maps to 500.
    pub fn status_code(&self) -> (code: u16)
        ensures
            code == self.spec_status_code(),
    {
        match self {
            Error::BadRequest(_) => 400,
            Error::NotFound(_) => 404,
            Error::Unauthorized(_) => 401,
            Error::Forbidden(_) => 403,
            Error::Conflict(_) => 409,
            Error::UnprocessableEntity => 422,
            Error::Cdn | Error::Database(_) | Error::Generic => 500,
        }
    }

    /// The message a response built from this error carries: the wrapped
    /// domain message where there is one, a fixed status line otherwise —
    /// never the raw store error text, which would leak schema details.
    pub open spec fn spec_message(self) -> Seq<char> {
        match self {
            Error::BadRequest(m)
            | Error::NotFound(m)
            | Error::Unauthorized(m)
            | Error::Forbidden(m)
            | Error::Conflict(m) => m@,
            Error::UnprocessableEntity => "422 Unprocessable Entity"@,
            Error::Cdn => "500 Internal Server Error (CDN)"@,
            Error::Database(_) => "500 Internal Server Error (Database)"@,
            Error::Generic => "500 Internal Server Error"@,
        }
    }

    /// The client-visible message of this error.
    pub fn message(&self) -> (m: String)
        ensures
            m@ == self.spec_message(),
    {
        match self {
            Error::BadRequest(m)
            | Error::NotFound(m)
            | Error::Unauthorized(m)
            | Error::Forbidden(m)
            | Error::Conflict(m) => m.clone(),
            Error::UnprocessableEntity => "422 Unprocessable Entity".to_owned(),
            Error::Cdn => "500 Internal Server Error (CDN)".to_owned(),
            Error::Database(_) => "500 Internal Server Error (Database)".to_owned(),
            Error::Generic => "500 Internal Server Error".to_owned(),
        }
    }

    /// How a domain error appears as a request-level error: the variant
    /// matching its status code, carrying its message.
    pub open spec fn corresponds_to_json(self, value: JsonError) -> bool {
        match value {
            JsonError::UserCannotAddSelf => self matches Error::BadRequest(m) && m@
                == value.spec_message(),
            JsonError::Unauthorized | JsonError::InvalidToken => self matches Error::Unauthorized(
                m,
            ) && m@ == value.spec_message(),
            JsonError::Forbidden => self matches Error::Forbidden(m) && m@
                == value.spec_message(),
            JsonError::UnknownUser | JsonError::UnknownEmote | JsonError::UnknownEmoteSet => self
                matches Error::NotFound(m) && m@ == value.spec_message(),
            JsonError::ColorExists => self matches Error::Conflict(m) && m@
                == value.spec_message(),
        }
    }

    /// Lifts a domain error into a request-level error, picking the
    /// variant by the domain error's status code and carrying its
    /// client-visible message.
    pub fn from_json(value: JsonError) -> (r: Error)
        ensures
            r.corresponds_to_json(value),
    {
        let message = value.message();
        match value.status_code() {
            400 => Error::BadRequest(message),
            401 => Error::Unauthorized(message),
            403 => Error::Forbidden(message),
            404 => Error::NotFound(message),
            _ => Error::Conflict(message),
        }
    }
}

/// The store error names a violated constraint and it is exactly the
/// expected one.
pub open spec fn constraint_matches(err: StoreError, name: Seq<char>) -> bool {
    match err.constraint {
        Some(c) => c@ == name,
        None => false,
    }
}

/// Translates a raw store failure: when the violated constraint is
/// exactly `constraint`, the supplied domain error is returned; every
/// other failure passes through unchanged, wrapped as an internal
/// database error that preserves the original for logging.
pub fn translate(err: StoreError, constraint: &str, domain: Error) -> (r: Error)
    ensures
        constraint_matches(err, constraint@) ==> r == domain,
        !constraint_matches(err, constraint@) ==> r == Error::Database(err),
{
    let matched = match &err.constraint {
        Some(c) => *c == constraint.to_owned(),
        None => false,
    };
    if matched {
        domain
    } else {
        Error::Database(err)
    }
}

/// Applies [`translate`] to the error of a fallible store operation: a
/// failure on exactly the named constraint becomes the supplied domain
/// error, any other outcome is unchanged.
pub fn on_constraint<T>(result: Result<T, Error>, name: &str, domain: Error) -> (r: Result<
    T,
    Error,
>)
    ensures
        result matches Ok(v) ==> r == Ok::<T, Error>(v),
        result matches Err(e) ==> (match e {
            Error::Database(db) => {
                if constraint_matches(db, name@) {
                    r == Err::<T, Error>(domain)
                } else {
                    r == Err::<T, Error>(e)
                }
            },
            _ => r == Err::<T, Error>(e),
        }),
{
    match result {
        Ok(v) => Ok(v),
        Err(e) => match e {
            Error::Database(db) => Err(translate(db, name, domain)),
            other => Err(other),
        },
    }
}

#[verifier::external_type_specification]
#[verifier::external_body]
pub struct ExPgError(TokioPgError);

/// Relies on `tokio_postgres::Error::as_db_error`,
/// `DbError::constraint` and the `Display` impl of the error: copies the
/// name of the violated constraint, when the server reported one, and the
/// printable message into the library's store-error record.
#[verifier::external_body]
fn store_error_of(err: &TokioPgError) -> StoreError {
    StoreError {
        constraint: err.as_db_error().and_then(|db| db.constraint()).map(|name| name.to_owned()),
        message: err.to_string(),
    }
}

impl Error {
    /// Wraps a raw driver error as the library's internal database error,
    /// keeping whatever constraint name and message the driver reported.
    pub fn from_db(err: &TokioPgError) -> (r: Error)
        ensures
            r is Database,
    {
        Error::Database(store_error_of(err))
    }
}

/// Applies [`translate`] to the outcome of a raw driver call: a failure
/// on exactly the named constraint becomes the supplied domain error;
/// any other failure is kept as an internal database error.
pub fn on_pg_constraint<T>(
    result: Result<T, TokioPgError>,
    name: &str,
    domain: Error,
) -> (r: Result<T, Error>)
    ensures
        result matches Ok(v) ==> r == Ok::<T, Error>(v),
        result is Err ==> (r matches Err(e) && (e == domain || e is Database)),
{
    match result {
        Ok(v) => Ok(v),
        Err(e) => Err(translate(store_error_of(&e), name, domain)),
    }
}

} // verus!
