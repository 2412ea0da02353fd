use aria_token::dispatch::process_instruction;
use aria_token::errors::AriaError;
use aria_token::identity::Identity;
use aria_token::instruction::{encode_instruction, ARIAInstruction};
use aria_token::state::{MintRecord, TokenAccount, MINT_COOLDOWN};

struct Deployment {
    mint_id: Identity,
    slot: Option<MintRecord>,
    rent_exempt: bool,
}

impl Deployment {
    fn new() -> Self {
        Deployment {
            mint_id: Identity::new(77, 78, 79, 80),
            slot: None,
            rent_exempt: true,
        }
    }

    fn run(
        &mut self,
        ins: &ARIAInstruction,
        caller: &Identity,
        signed: bool,
        now: u64,
        dest: &mut TokenAccount,
    ) -> Result<(), AriaError> {
        let data = encode_instruction(ins);
        process_instruction(
            &data,
            caller,
            signed,
            &self.mint_id,
            self.rent_exempt,
            now,
            &mut self.slot,
            dest,
        )
    }
}

#[test]
fn test_full_lifecycle_scenario() {
    let a = Identity::new(1, 2, 3, 4);
    let b = Identity::new(5, 6, 7, 8);
    let mut deployment = Deployment::new();
    let mut d = TokenAccount { mint: deployment.mint_id, amount: 0 };

    // Initialize a mint with authority A.
    deployment
        .run(&ARIAInstruction::InitializeMint, &a, true, 1_000, &mut d)
        .unwrap();

    // A mints 1000 units to destination D.
    deployment
        .run(&ARIAInstruction::MintTokens { amount: 1000 }, &a, true, 2_000, &mut d)
        .unwrap();
    assert_eq!(deployment.slot.unwrap().supply, 1000);
    assert_eq!(d.amount, 1000);

    // A proposes transfer to B; B accepts.
    deployment
        .run(
            &ARIAInstruction::ProposeAuthorityTransfer { new_authority: b },
            &a,
            true,
            3_000,
            &mut d,
        )
        .unwrap();
    deployment
        .run(&ARIAInstruction::AcceptAuthorityTransfer, &b, true, 4_000, &mut d)
        .unwrap();
    assert_eq!(deployment.slot.unwrap().mint_authority, b);

    // A attempts to mint and is refused.
    let now = 2_000 + MINT_COOLDOWN;
    let result = deployment.run(&ARIAInstruction::MintTokens { amount: 500 }, &a, true, now, &mut d);
    assert_eq!(result, Err(AriaError::InsufficientAuthority));

    // B mints 500: the supply reaches 1500.
    deployment
        .run(&ARIAInstruction::MintTokens { amount: 500 }, &b, true, now, &mut d)
        .unwrap();
    assert_eq!(deployment.slot.unwrap().supply, 1500);
    assert_eq!(d.amount, 1500);
}

#[test]
fn test_mint_tokens_success() {
    let a = Identity::new(1, 2, 3, 4);
    let mut deployment = Deployment::new();
    let mut d = TokenAccount { mint: deployment.mint_id, amount: 0 };
    // Nothing initialized the mint, so the call goes through the engine
    // but must report an error rather than create supply from nowhere.
    let result = deployment.run(&ARIAInstruction::MintTokens { amount: 1000 }, &a, true, 0, &mut d);
    assert!(result.is_err());
}

#[test]
fn test_dispatch_rejects_malformed_payload() {
    let a = Identity::new(1, 2, 3, 4);
    let mint_id = Identity::new(77, 78, 79, 80);
    let mut slot: Option<MintRecord> = None;
    let mut d = TokenAccount { mint: mint_id, amount: 0 };
    let result = process_instruction(&[9, 9, 9], &a, true, &mint_id, true, 0, &mut slot, &mut d);
    assert_eq!(result, Err(AriaError::InvalidInstructionData));
    assert!(slot.is_none());
}

#[test]
fn test_dispatch_rejects_zero_mint() {
    let a = Identity::new(1, 2, 3, 4);
    let mut deployment = Deployment::new();
    let mut d = TokenAccount { mint: deployment.mint_id, amount: 0 };
    deployment
        .run(&ARIAInstruction::InitializeMint, &a, true, 0, &mut d)
        .unwrap();
    let result = deployment.run(&ARIAInstruction::MintTokens { amount: 0 }, &a, true, 10, &mut d);
    assert_eq!(result, Err(AriaError::InvalidInstructionData));
    assert_eq!(deployment.slot.unwrap().supply, 0);
}

#[test]
fn test_dispatch_requires_record_in_slot() {
    let a = Identity::new(1, 2, 3, 4);
    let mut deployment = Deployment::new();
    let mut d = TokenAccount { mint: deployment.mint_id, amount: 0 };
    for ins in [
        ARIAInstruction::MintTokens { amount: 5 },
        ARIAInstruction::ProposeAuthorityTransfer { new_authority: Identity::new(5, 6, 7, 8) },
        ARIAInstruction::AcceptAuthorityTransfer,
        ARIAInstruction::CancelAuthorityTransfer,
    ] {
        let result = deployment.run(&ins, &a, true, 10, &mut d);
        assert_eq!(result, Err(AriaError::InvalidAccountCount));
        assert!(deployment.slot.is_none());
    }
}

#[test]
fn test_dispatch_initialize_twice() {
    let a = Identity::new(1, 2, 3, 4);
    let mut deployment = Deployment::new();
    let mut d = TokenAccount { mint: deployment.mint_id, amount: 0 };
    deployment
        .run(&ARIAInstruction::InitializeMint, &a, true, 0, &mut d)
        .unwrap();
    let result = deployment.run(&ARIAInstruction::InitializeMint, &a, true, 1, &mut d);
    assert_eq!(result, Err(AriaError::AlreadyInitialized));
}

#[test]
fn test_dispatch_rejects_unfunded_slot() {
    let a = Identity::new(1, 2, 3, 4);
    let mut deployment = Deployment::new();
    deployment.rent_exempt = false;
    let mut d = TokenAccount { mint: deployment.mint_id, amount: 0 };
    let result = deployment.run(&ARIAInstruction::InitializeMint, &a, true, 0, &mut d);
    assert_eq!(result, Err(AriaError::AccountNotRentExempt));
    assert!(deployment.slot.is_none());
}
