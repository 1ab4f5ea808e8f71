//! Errors of the audit store and of authorization.

use vstd::prelude::*;

verus! {

/// The error of `uuid::Uuid::parse_str`, carried through unchanged.
#[verifier::external_type_specification]
#[verifier::external_body]
pub struct ExUuidError(uuid::Error);

/// The error of `chrono::DateTime::parse_from_rfc3339`, carried through unchanged.
#[verifier::external_type_specification]
#[verifier::external_body]
pub struct ExChronoParseError(chrono::ParseError);

/// What can go wrong while storing or reading audit rows.
///
/// The variants that the database driver, the migrations, JSON and the file
/// system produce carry the message of the underlying error.
#[derive(Debug)]
pub enum StoreError {
    Sqlx(String),
    Migrate(String),
    Json(String),
    Timestamp(chrono::ParseError),
    Uuid(uuid::Error),
    Io(String),
}

/// Why an authorization was refused.
#[derive(Debug, Clone, PartialEq, Eq)]
pub enum AuthzError {
    UnknownPrincipal,
}

/// Why an audit sink could not record a row.
#[derive(Debug, Clone, PartialEq, Eq)]
pub enum AuditError {
    Sink(String),
}

impl AuditError {
    /// The error of a sink that failed with the given message.
    pub fn sink(message: String) -> (e: AuditError)
        ensures
            e == AuditError::Sink(message),
    {
        AuditError::Sink(message)
    }
}

} // verus!
