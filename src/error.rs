use vstd::prelude::*;
use crate::text::same_text;

verus! {

/// Failures of the storage layer.
#[derive(Debug, Clone, PartialEq, Eq)]
pub enum RepoError {
    NotFound(String),
    ConnectionError,
    DuplicateEntry(String),
    QueryError(String),
}

/// Failures of the service layer.
#[derive(Debug, Clone, PartialEq, Eq)]
pub enum ServiceError {
    InvalidInput(String),
    AuthenticationError(String),
    AuthorizationError(String),
    RepositoryError(RepoError),
    Unknown(String),
}

/// What a database driver reported, as plain values.
#[derive(Debug, Clone, PartialEq, Eq)]
pub enum StorageFailure {
    /// A query that must return a row returned none.
    RowNotFound,
    /// No connection could be had from the pool in time.
    PoolTimedOut,
    /// The database refused a statement, with its error code if it gave one.
    Database { code: Option<String>, message: String },
    /// Any other failure, with its description.
    Other(String),
}

/// The SQLSTATE code of a unique-constraint violation.
pub const UNIQUE_VIOLATION: &'static str = "23505";

/// How a driver failure is classified: a missing row is not found, a pool
/// timeout a connection error, a unique violation (recognised by its code) a
/// duplicate entry with the database's message, and any other failure a query
/// error carrying the driver's message or description.
pub open spec fn classified(f: StorageFailure, e: RepoError) -> bool {
    match f {
        StorageFailure::RowNotFound => e matches RepoError::NotFound(m) && m@ == "row not found"@,
        StorageFailure::PoolTimedOut => e is ConnectionError,
        StorageFailure::Database { code, message } => if code is Some && code->0@
            == UNIQUE_VIOLATION@ {
            e matches RepoError::DuplicateEntry(m) && m@ == message@
        } else {
            e matches RepoError::QueryError(m) && m@ == message@
        },
        StorageFailure::Other(description) => e matches RepoError::QueryError(m) && m@
            == description@,
    }
}

impl RepoError {
    /// Classifies a failure that the database driver reported.
    pub fn from_failure(f: StorageFailure) -> (e: RepoError)
        ensures
            classified(f, e),
    {
        match f {
            StorageFailure::RowNotFound => RepoError::NotFound(String::from_str("row not found")),
            StorageFailure::PoolTimedOut => RepoError::ConnectionError,
            StorageFailure::Database { code, message } => {
                let unique = match &code {
                    Some(c) => same_text(c.as_str(), UNIQUE_VIOLATION),
                    None => false,
                };
                if unique {
                    RepoError::DuplicateEntry(message)
                } else {
                    RepoError::QueryError(message)
                }
            },
            StorageFailure::Other(description) => RepoError::QueryError(description),
        }
    }
}

impl ServiceError {
    /// A storage failure passed up unchanged in kind.
    pub fn from_repo(e: RepoError) -> (r: ServiceError)
        ensures
            r == ServiceError::RepositoryError(e),
    {
        ServiceError::RepositoryError(e)
    }
}

pub const OK: u16 = 200;
pub const BAD_REQUEST: u16 = 400;
pub const UNAUTHORIZED: u16 = 401;
pub const FORBIDDEN: u16 = 403;
pub const NOT_FOUND: u16 = 404;
pub const CONFLICT: u16 = 409;
pub const INTERNAL_SERVER_ERROR: u16 = 500;

/// The transport status of a storage failure.
pub open spec fn repo_status(e: RepoError) -> u16 {
    match e {
        RepoError::NotFound(_) => NOT_FOUND,
        RepoError::DuplicateEntry(_) => CONFLICT,
        RepoError::ConnectionError => INTERNAL_SERVER_ERROR,
        RepoError::QueryError(_) => INTERNAL_SERVER_ERROR,
    }
}

/// The transport status of a service failure.
pub open spec fn service_status(e: ServiceError) -> u16 {
    match e {
        ServiceError::RepositoryError(r) => repo_status(r),
        ServiceError::InvalidInput(_) => BAD_REQUEST,
        ServiceError::AuthenticationError(_) => UNAUTHORIZED,
        ServiceError::AuthorizationError(_) => FORBIDDEN,
        ServiceError::Unknown(_) => INTERNAL_SERVER_ERROR,
    }
}

impl ServiceError {
    /// The status code with which this failure is reported to clients.
    pub fn status_code(&self) -> (r: u16)
        ensures
            r == service_status(*self),
    {
        match self {
            ServiceError::RepositoryError(e) => match e {
                RepoError::DuplicateEntry(_) => CONFLICT,
                RepoError::ConnectionError | RepoError::QueryError(_) => INTERNAL_SERVER_ERROR,
                RepoError::NotFound(_) => NOT_FOUND,
            },
            ServiceError::InvalidInput(_) => BAD_REQUEST,
            ServiceError::AuthenticationError(_) => UNAUTHORIZED,
            ServiceError::AuthorizationError(_) => FORBIDDEN,
            ServiceError::Unknown(_) => INTERNAL_SERVER_ERROR,
        }
    }
}

} // verus!
