use vstd::prelude::*;

verus! {

/// Every failure of an instruction handler is a distinct, inspectable value.
///
/// The first eight variants keep their historical numeric codes 0 through 7;
/// the two initialization-time variants follow them.
#[derive(Debug, Clone, Copy, PartialEq, Eq, Structural)]
pub enum AriaError {
    /// The request payload is malformed or asks for nothing.
    InvalidInstructionData,
    /// The caller did not sign, or is not the principal the operation demands.
    InsufficientAuthority,
    /// A required resource is missing from the call's wiring.
    InvalidAccountCount,
    /// The destination balance record belongs to a different asset.
    TokenMintMismatch,
    /// The requested amount would push the supply over the cap.
    ExceedsSupplyCap,
    /// Too little time has passed since the last successful mint.
    MintCooldownActive,
    /// No authority transfer proposal is in flight.
    AuthorityTransferNotFound,
    /// The proposal's validity window has elapsed.
    AuthorityTransferExpired,
    /// The target slot does not meet the store's minimum-funding predicate.
    AccountNotRentExempt,
    /// The target slot already holds a mint record.
    AlreadyInitialized,
}

impl AriaError {
    /// The stable numeric code of each failure value.
    pub open spec fn code_spec(self) -> u32 {
        match self {
            AriaError::InvalidInstructionData => 0,
            AriaError::InsufficientAuthority => 1,
            AriaError::InvalidAccountCount => 2,
            AriaError::TokenMintMismatch => 3,
            AriaError::ExceedsSupplyCap => 4,
            AriaError::MintCooldownActive => 5,
            AriaError::AuthorityTransferNotFound => 6,
            AriaError::AuthorityTransferExpired => 7,
            AriaError::AccountNotRentExempt => 8,
            AriaError::AlreadyInitialized => 9,
        }
    }

    pub fn code(&self) -> (c: u32)
        ensures
            c == self.code_spec(),
    {
        match self {
            AriaError::InvalidInstructionData => 0,
            AriaError::InsufficientAuthority => 1,
            AriaError::InvalidAccountCount => 2,
            AriaError::TokenMintMismatch => 3,
            AriaError::ExceedsSupplyCap => 4,
            AriaError::MintCooldownActive => 5,
            AriaError::AuthorityTransferNotFound => 6,
            AriaError::AuthorityTransferExpired => 7,
            AriaError::AccountNotRentExempt => 8,
            AriaError::AlreadyInitialized => 9,
        }
    }
}

} // verus!
