//! Error codes shared by the MentorMinds contracts.
use vstd::prelude::*;

verus! {

/// Errors common to several contracts.
#[derive(Clone, Copy, Debug, PartialEq, Eq, Structural)]
pub enum SharedError {
    AlreadyInitialized,
    NotInitialized,
    Unauthorized,
    NotFound,
    InvalidAmount,
    InvalidState,
    DuplicateEntry,
    UnsupportedOperation,
    Overflow,
    Underflow,
}

pub open spec fn shared_error_code(e: SharedError) -> u32 {
    match e {
        SharedError::AlreadyInitialized => 1,
        SharedError::NotInitialized => 2,
        SharedError::Unauthorized => 3,
        SharedError::NotFound => 4,
        SharedError::InvalidAmount => 5,
        SharedError::InvalidState => 6,
        SharedError::DuplicateEntry => 7,
        SharedError::UnsupportedOperation => 8,
        SharedError::Overflow => 9,
        SharedError::Underflow => 10,
    }
}

impl SharedError {
    /// The contract error code.
    pub fn code(&self) -> (r: u32)
        ensures
            1 <= r <= 10,
            r == shared_error_code(*self),
    {
        match self {
            SharedError::AlreadyInitialized => 1,
            SharedError::NotInitialized => 2,
            SharedError::Unauthorized => 3,
            SharedError::NotFound => 4,
            SharedError::InvalidAmount => 5,
            SharedError::InvalidState => 6,
            SharedError::DuplicateEntry => 7,
            SharedError::UnsupportedOperation => 8,
            SharedError::Overflow => 9,
            SharedError::Underflow => 10,
        }
    }

}

} // verus!
