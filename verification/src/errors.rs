//! The failure taxonomy of the directory core. Every failure is returned to
//! the immediate caller; none is fatal to the process.

use vstd::prelude::*;

verus! {

/// Why a directory operation failed.
#[derive(Debug, Clone, Copy, PartialEq, Eq, Structural)]
pub enum DirectoryError {
    /// A lookup missed the cache.
    NotFound,
    /// A button identifier did not match the protocol grammar.
    InvalidFormat,
    /// A display attribute failed validation (the pictographic emoji check).
    ValidationFailure,
    /// The persistence or role-assignment gateway failed or timed out.
    UpstreamFailure,
}

impl DirectoryError {
    /// A short description, for the caller to surface to the user.
    pub fn text(&self) -> (r: String)
        ensures
            match self {
                DirectoryError::NotFound => r@ == "Unable to get circle"@,
                DirectoryError::InvalidFormat => r@ == "Unable to get matches"@,
                DirectoryError::ValidationFailure => r@ == "Invalid emoji"@,
                DirectoryError::UpstreamFailure => r@ == "Upstream request failed"@,
            },
    {
        match self {
            DirectoryError::NotFound => "Unable to get circle".to_owned(),
            DirectoryError::InvalidFormat => "Unable to get matches".to_owned(),
            DirectoryError::ValidationFailure => "Invalid emoji".to_owned(),
            DirectoryError::UpstreamFailure => "Upstream request failed".to_owned(),
        }
    }
}

} // verus!
