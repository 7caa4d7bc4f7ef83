//! Error kinds reported by the library. Every failure is terminal to the
//! operation that raised it; the variant says which rule was broken and the
//! payload is a user-displayable message.

use vstd::prelude::*;

verus! {

/// One error kind per failure class: malformed input, failed authentication,
/// a missing profile, an environment/setup fault, a filesystem fault, or a
/// storage-layer fault.
#[derive(Debug)]
pub enum AppError {
    Validation(String),
    Auth(String),
    NotFound(String),
    Config(String),
    Io(String),
    Database(String),
}

impl AppError {
    /// The message carried by the error, whatever its kind.
    pub open spec fn spec_message(&self) -> Seq<char> {
        match self {
            AppError::Validation(m) => m@,
            AppError::Auth(m) => m@,
            AppError::NotFound(m) => m@,
            AppError::Config(m) => m@,
            AppError::Io(m) => m@,
            AppError::Database(m) => m@,
        }
    }

    /// User-facing message of this error.
    pub fn message(&self) -> (r: String)
        ensures
            r@ == self.spec_message(),
    {
        match self {
            AppError::Validation(m) => m.clone(),
            AppError::Auth(m) => m.clone(),
            AppError::NotFound(m) => m.clone(),
            AppError::Config(m) => m.clone(),
            AppError::Io(m) => m.clone(),
            AppError::Database(m) => m.clone(),
        }
    }
}

} // verus!
