//! The error taxonomy shared by the whole crate.

use vstd::prelude::*;

verus! {

/// Application-wide error type.
///
/// Every failure of the domain core is one of these five cases; the carried
/// text is a human-readable message naming the violated rule or the failed
/// lookup. Storage failures are wrapped as [`AppError::InternalError`] with
/// the underlying message, so that nothing of the persistence layer leaks
/// into the other variants.
#[derive(Debug)]
pub enum AppError {
    /// A value object or a form rejected its raw input.
    ValidationFailure(String),
    /// A lookup found zero results where at least one was required.
    SearchError(String),
    /// A uniqueness or business-rule conflict on write.
    RegisterError(String),
    /// Unknown principal or credential mismatch.
    AuthenticateError(String),
    /// A wrapped failure of an underlying collaborator (storage, transport).
    InternalError(String),
}

impl AppError {
    /// The human-readable message carried by the error.
    pub fn message(&self) -> (r: String)
        ensures
            r@ == self.message_view(),
    {
        match self {
            AppError::ValidationFailure(m) => m.clone(),
            AppError::SearchError(m) => m.clone(),
            AppError::RegisterError(m) => m.clone(),
            AppError::AuthenticateError(m) => m.clone(),
            AppError::InternalError(m) => m.clone(),
        }
    }

    /// The carried message, as a sequence of characters.
    pub open spec fn message_view(&self) -> Seq<char> {
        match self {
            AppError::ValidationFailure(m) => m@,
            AppError::SearchError(m) => m@,
            AppError::RegisterError(m) => m@,
            AppError::AuthenticateError(m) => m@,
            AppError::InternalError(m) => m@,
        }
    }
}

} // verus!
