//! The failure kinds an operation can end with. Every failure aborts the
//! whole unit of work; there is no internal recovery.

use vstd::prelude::*;

verus! {

/// One error kind per reason an operation can be rejected.
#[derive(Clone, Copy, Debug, PartialEq, Eq, Structural)]
pub enum ReviewError {
    /// Unknown tag, truncated operation buffer, or text that is not UTF-8.
    InvalidInstructionData,
    /// A required signer flag is absent.
    MissingRequiredSignature,
    /// The provided storage address differs from the recomputed derived one.
    InvalidDerivedAddress,
    /// The rating lies outside `[1, 5]`.
    InvalidRating,
    /// The encoded record would exceed the fixed 1000-byte allocation.
    DataTooLarge,
    /// Create attempted on a record that is already initialized.
    AccountAlreadyInitialized,
    /// Update attempted on storage that holds no initialized record.
    UninitializedAccount,
    /// The storage's controlling authority is not this module.
    IllegalOwner,
    /// The host's storage/funding allocation call failed.
    AllocationFailed,
}

impl ReviewError {
    /// The numeric code under which the host surfaces this error kind.
    pub open spec fn spec_code(self) -> u32 {
        match self {
            ReviewError::InvalidInstructionData => 0,
            ReviewError::MissingRequiredSignature => 1,
            ReviewError::InvalidDerivedAddress => 2,
            ReviewError::InvalidRating => 3,
            ReviewError::DataTooLarge => 4,
            ReviewError::AccountAlreadyInitialized => 5,
            ReviewError::UninitializedAccount => 6,
            ReviewError::IllegalOwner => 7,
            ReviewError::AllocationFailed => 8,
        }
    }

    /// The numeric code for this error kind.
    pub fn code(&self) -> (c: u32)
        ensures
            c == self.spec_code(),
    {
        match self {
            ReviewError::InvalidInstructionData => 0,
            ReviewError::MissingRequiredSignature => 1,
            ReviewError::InvalidDerivedAddress => 2,
            ReviewError::InvalidRating => 3,
            ReviewError::DataTooLarge => 4,
            ReviewError::AccountAlreadyInitialized => 5,
            ReviewError::UninitializedAccount => 6,
            ReviewError::IllegalOwner => 7,
            ReviewError::AllocationFailed => 8,
        }
    }
}

} // verus!
