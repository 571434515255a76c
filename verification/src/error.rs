//! The closed set of failure categories that every component surfaces.
//!
//! Persistence failures, credential failures and token failures are all
//! normalized into one of these kinds as close to their origin as possible,
//! and propagated unchanged until they are rendered into an opaque message
//! by the response envelope. No raw underlying-library error ever crosses a
//! component boundary unwrapped, and no sensitive detail (hashes, secrets,
//! raw query errors) appears in a rendered message.
use vstd::prelude::*;

verus! {

/// One failure category for the whole system.
#[derive(Debug)]
pub enum AppError {
    /// The persistence client was never initialized (startup failed or has
    /// not completed before a command arrived).
    ClientInitError,
    /// A persistence operation failed; carries an operation-level message
    /// written by this library, never a raw backend error.
    QueryError(String),
    /// Wrong password or unknown account. Carries no detail at all so the
    /// two causes are not distinguishable by a caller.
    CredentialError,
    /// A bearer token was malformed, carried an invalid signature, or has
    /// expired.
    TokenError(String),
    /// Caller-supplied data was malformed.
    ValidationError(String),
    /// An entity was absent after an operation that assumed its presence.
    NotFound(String),
    /// Catch-all for uncommon failures, carrying a free-text description.
    Other(String),
}

/// Result alias used throughout the library.
pub type AppResult<T> = Result<T, AppError>;

impl From<&str> for AppError {
    /// A bare message becomes the catch-all kind.
    fn from(s: &str) -> (r: AppError)
        ensures
            r matches AppError::Other(m) && m@ == s@,
    {
        AppError::Other(s.to_owned())
    }
}

impl vstd::std_specs::convert::FromSpecImpl<&str> for AppError {
    open spec fn obeys_from_spec() -> bool {
        false
    }

    open spec fn from_spec(v: &str) -> AppError {
        vstd::pervasive::arbitrary()
    }
}

impl AppError {
    /// The opaque, reproducible message a caller sees for this failure.
    pub open spec fn message_spec(&self) -> Seq<char> {
        match self {
            AppError::ClientInitError => "Database client is not initialized"@,
            AppError::QueryError(m) => m@,
            AppError::CredentialError => "Invalid credentials"@,
            AppError::TokenError(m) => m@,
            AppError::ValidationError(m) => m@,
            AppError::NotFound(m) => m@,
            AppError::Other(m) => m@,
        }
    }

    /// Renders the failure as its human-readable message. Equivalent
    /// failures render to the same text, reproducibly.
    pub fn render(&self) -> (r: String)
        ensures
            r@ == self.message_spec(),
    {
        match self {
            AppError::ClientInitError => "Database client is not initialized".to_owned(),
            AppError::QueryError(m) => m.clone(),
            AppError::CredentialError => "Invalid credentials".to_owned(),
            AppError::TokenError(m) => m.clone(),
            AppError::ValidationError(m) => m.clone(),
            AppError::NotFound(m) => m.clone(),
            AppError::Other(m) => m.clone(),
        }
    }
}

} // verus!
