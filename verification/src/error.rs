//! The two ways in which an operation on the ledger is rejected.

use vstd::prelude::*;

verus! {

/// Why an operation was rejected.
#[derive(Clone, Copy, Debug, PartialEq, Eq, Structural)]
pub enum ErrorCode {
    /// The caller is not the admin authority.
    Unauthorized,
    /// A profile is already stored for the owner.
    UserProfileAlreadyExists,
}

/// The text that goes with each rejection.
pub open spec fn message_of(code: ErrorCode) -> Seq<char> {
    match code {
        ErrorCode::Unauthorized => "Unauthorized access"@,
        ErrorCode::UserProfileAlreadyExists => "UserProfile already exists"@,
    }
}

impl ErrorCode {
    /// The text that goes with this rejection.
    pub fn message(&self) -> (text: &'static str)
        ensures
            text@ == message_of(*self),
    {
        match self {
            ErrorCode::Unauthorized => "Unauthorized access",
            ErrorCode::UserProfileAlreadyExists => "UserProfile already exists",
        }
    }
}

} // verus!
