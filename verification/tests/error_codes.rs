use aria_token::errors::AriaError;

#[test]
fn test_error_handling() {
    assert_eq!(AriaError::InvalidInstructionData.code(), 0);
    assert_eq!(AriaError::InsufficientAuthority.code(), 1);
    assert_eq!(AriaError::ExceedsSupplyCap.code(), 4);
    assert_eq!(AriaError::MintCooldownActive.code(), 5);
}

#[test]
fn test_error_codes_are_distinct() {
    let all = [
        AriaError::InvalidInstructionData,
        AriaError::InsufficientAuthority,
        AriaError::InvalidAccountCount,
        AriaError::TokenMintMismatch,
        AriaError::ExceedsSupplyCap,
        AriaError::MintCooldownActive,
        AriaError::AuthorityTransferNotFound,
        AriaError::AuthorityTransferExpired,
        AriaError::AccountNotRentExempt,
        AriaError::AlreadyInitialized,
    ];
    for (i, a) in all.iter().enumerate() {
        assert_eq!(a.code(), i as u32);
        for (j, b) in all.iter().enumerate() {
            if i != j {
                assert_ne!(a.code(), b.code());
            }
        }
    }
}
