//! Error types for the flight tracker backend.

use vstd::prelude::*;

verus! {

/// Application error type.
///
/// Every failure is carried as a human-readable message; the process
/// boundary shows callers nothing more structured than that.
#[derive(Debug)]
pub enum AppError {
    /// Database operation failed
    Database(String),
    /// Notification failed to send
    Notification(String),
    /// IO operation failed
    Io(String),
    /// Configuration error
    Config(String),
}

/// Result type alias for the app
pub type AppResult<T> = Result<T, AppError>;

impl AppError {
    /// The message shown at the process boundary: a fixed prefix naming the
    /// error kind, followed by the carried text.
    pub fn message(&self) -> (m: String)
        ensures
            self matches AppError::Database(s) ==> m@ == "Database error: "@ + s@,
            self matches AppError::Notification(s) ==> m@ == "Notification error: "@ + s@,
            self matches AppError::Io(s) ==> m@ == "IO error: "@ + s@,
            self matches AppError::Config(s) ==> m@ == "Config error: "@ + s@,
    {
        match self {
            AppError::Database(s) => String::from_str("Database error: ").concat(s.as_str()),
            AppError::Notification(s) => String::from_str("Notification error: ").concat(s.as_str()),
            AppError::Io(s) => String::from_str("IO error: ").concat(s.as_str()),
            AppError::Config(s) => String::from_str("Config error: ").concat(s.as_str()),
        }
    }
}

} // verus!
