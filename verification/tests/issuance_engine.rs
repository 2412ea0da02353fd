use aria_token::errors::AriaError;
use aria_token::identity::Identity;
use aria_token::issuance::{process_initialize_mint, process_mint_tokens};
use aria_token::state::{MintRecord, TokenAccount, MINT_COOLDOWN, SUPPLY_CAP, TOKEN_DECIMALS};

fn initialized_record(authority: Identity) -> MintRecord {
    let mut slot: Option<MintRecord> = None;
    process_initialize_mint(&authority, true, true, &mut slot).unwrap();
    slot.unwrap()
}

#[test]
fn test_initialize_mint_authority() {
    let authority = Identity::new(1, 2, 3, 4);
    let mut slot: Option<MintRecord> = None;
    // Not a signer, should fail
    let result = process_initialize_mint(&authority, false, true, &mut slot);
    assert!(result.is_err());
    if let Err(e) = result {
        assert_eq!(e, AriaError::InsufficientAuthority);
    }
    assert!(slot.is_none());
}

#[test]
fn test_initialize_mint_success() {
    let authority = Identity::new(1, 2, 3, 4);
    let rec = initialized_record(authority);
    assert_eq!(rec.supply, 0);
    assert_eq!(rec.decimals, TOKEN_DECIMALS);
    assert_eq!(rec.mint_authority, authority);
    assert_eq!(rec.last_mint_time, 0);
    assert_eq!(rec.transfer.proposed_authority, None);
}

#[test]
fn test_initialize_mint_already_initialized() {
    let authority = Identity::new(1, 2, 3, 4);
    let mut slot = Some(initialized_record(authority));
    let before = slot;
    let result = process_initialize_mint(&Identity::new(5, 6, 7, 8), true, true, &mut slot);
    assert_eq!(result, Err(AriaError::AlreadyInitialized));
    assert_eq!(slot, before);
}

#[test]
fn test_initialize_mint_rent_exemption() {
    let authority = Identity::new(1, 2, 3, 4);
    let mut slot: Option<MintRecord> = None;
    let result = process_initialize_mint(&authority, true, false, &mut slot);
    assert_eq!(result, Err(AriaError::AccountNotRentExempt));
    assert!(slot.is_none());
}

#[test]
fn test_mint_tokens_credits_destination() {
    let authority = Identity::new(1, 2, 3, 4);
    let mint_id = Identity::new(40, 41, 42, 43);
    let mut rec = initialized_record(authority);
    let mut dest = TokenAccount { mint: mint_id, amount: 0 };
    let result = process_mint_tokens(&authority, true, &mint_id, &mut rec, &mut dest, 1000, 1000);
    assert!(result.is_ok());
    assert_eq!(rec.supply, 1000);
    assert_eq!(dest.amount, 1000);
    assert_eq!(rec.last_mint_time, 1000);
}

#[test]
fn test_mint_tokens_authority() {
    let authority = Identity::new(1, 2, 3, 4);
    let intruder = Identity::new(9, 9, 9, 9);
    let mint_id = Identity::new(40, 41, 42, 43);
    let mut rec = initialized_record(authority);
    let before = rec;
    let mut dest = TokenAccount { mint: mint_id, amount: 0 };

    // Not a signer, should fail
    let result = process_mint_tokens(&authority, false, &mint_id, &mut rec, &mut dest, 1000, 1000);
    assert!(result.is_err());
    if let Err(e) = result {
        assert_eq!(e, AriaError::InsufficientAuthority);
    }

    // Signed, but not the mint authority: same failure
    let result = process_mint_tokens(&intruder, true, &mint_id, &mut rec, &mut dest, 1000, 1000);
    assert_eq!(result, Err(AriaError::InsufficientAuthority));
    assert_eq!(rec, before);
    assert_eq!(dest.amount, 0);
}

#[test]
fn test_mint_tokens_wrong_mint() {
    let authority = Identity::new(1, 2, 3, 4);
    let mint_id = Identity::new(40, 41, 42, 43);
    let other_mint = Identity::new(50, 51, 52, 53);
    let mut rec = initialized_record(authority);
    let mut dest = TokenAccount { mint: other_mint, amount: 0 };
    let result = process_mint_tokens(&authority, true, &mint_id, &mut rec, &mut dest, 1000, 1000);
    assert_eq!(result, Err(AriaError::TokenMintMismatch));
    assert_eq!(rec.supply, 0);
    assert_eq!(dest.amount, 0);
}

#[test]
fn test_mint_tokens_supply_cap_boundary() {
    let authority = Identity::new(1, 2, 3, 4);
    let mint_id = Identity::new(40, 41, 42, 43);
    let mut rec = initialized_record(authority);
    let mut dest = TokenAccount { mint: mint_id, amount: 0 };

    // Minting the whole cap at once is allowed: the bound is inclusive.
    let result = process_mint_tokens(
        &authority,
        true,
        &mint_id,
        &mut rec,
        &mut dest,
        1000,
        SUPPLY_CAP,
    );
    assert!(result.is_ok());
    assert_eq!(rec.supply, SUPPLY_CAP);
    assert_eq!(dest.amount, SUPPLY_CAP);

    // One more base unit can never fit, however long we wait.
    let result = process_mint_tokens(
        &authority,
        true,
        &mint_id,
        &mut rec,
        &mut dest,
        1000 + MINT_COOLDOWN,
        1,
    );
    assert_eq!(result, Err(AriaError::ExceedsSupplyCap));
    assert_eq!(rec.supply, SUPPLY_CAP);
    assert_eq!(dest.amount, SUPPLY_CAP);
}

#[test]
fn test_mint_tokens_exceeding_request_leaves_state() {
    let authority = Identity::new(1, 2, 3, 4);
    let mint_id = Identity::new(40, 41, 42, 43);
    let mut rec = initialized_record(authority);
    let mut dest = TokenAccount { mint: mint_id, amount: 0 };
    process_mint_tokens(&authority, true, &mint_id, &mut rec, &mut dest, 1000, 600).unwrap();
    // A request that would overshoot fails whole: no partial credit.
    let result = process_mint_tokens(
        &authority,
        true,
        &mint_id,
        &mut rec,
        &mut dest,
        1000 + MINT_COOLDOWN,
        SUPPLY_CAP - 599,
    );
    assert_eq!(result, Err(AriaError::ExceedsSupplyCap));
    assert_eq!(rec.supply, 600);
    assert_eq!(dest.amount, 600);
}

#[test]
fn test_mint_tokens_cooldown_window() {
    let authority = Identity::new(1, 2, 3, 4);
    let mint_id = Identity::new(40, 41, 42, 43);
    let mut rec = initialized_record(authority);
    let mut dest = TokenAccount { mint: mint_id, amount: 0 };

    // The very first mint is not gated, whatever the clock says.
    process_mint_tokens(&authority, true, &mint_id, &mut rec, &mut dest, 5000, 100).unwrap();

    // One second short of the window: rejected, nothing moves.
    let result = process_mint_tokens(
        &authority,
        true,
        &mint_id,
        &mut rec,
        &mut dest,
        5000 + MINT_COOLDOWN - 1,
        100,
    );
    assert_eq!(result, Err(AriaError::MintCooldownActive));
    assert_eq!(rec.supply, 100);
    assert_eq!(rec.last_mint_time, 5000);

    // Once the full cooldown has elapsed, minting succeeds again.
    let result = process_mint_tokens(
        &authority,
        true,
        &mint_id,
        &mut rec,
        &mut dest,
        5000 + MINT_COOLDOWN,
        100,
    );
    assert!(result.is_ok());
    assert_eq!(rec.supply, 200);
    assert_eq!(rec.last_mint_time, 5000 + MINT_COOLDOWN);
}
