use vstd::prelude::*;

use crate::errors::AriaError;
use crate::identity::Identity;
use crate::instruction::{decode_instruction, spec_decode, ARIAInstruction};
use crate::issuance::{
    process_initialize_mint, process_mint_tokens, spec_initialize_mint, spec_mint_tokens,
};
use crate::state::{ledger_coherent, MintRecord, TokenAccount};
use crate::transfer::{
    process_accept_authority_transfer, process_cancel_authority_transfer,
    process_propose_authority_transfer, spec_accept_authority_transfer,
    spec_cancel_authority_transfer, spec_propose_authority_transfer,
};

verus! {

/// The store invariant between the mint slot and one balance record: while
/// no mint record exists, no balance of this asset exists either; once one
/// does, no balance of the asset exceeds the circulating supply.
pub open spec fn slot_coherent(
    mint_id: Identity,
    slot: Option<MintRecord>,
    dest: TokenAccount,
) -> bool {
    match slot {
        Some(rec) => ledger_coherent(mint_id, rec, dest),
        None => dest.mint == mint_id ==> dest.amount == 0,
    }
}

/// The slot's record, if any, satisfies the record invariant.
pub open spec fn slot_wf(slot: Option<MintRecord>) -> bool {
    slot matches Some(rec) ==> rec.wf()
}

/// The whole engine as one transition: decode the payload, route to
/// exactly one handler, and fail with `InvalidInstructionData` on any
/// malformed payload before a handler runs.  A payload that requests a
/// mint of zero units asks for nothing and is rejected the same way.  An
/// operation that needs the mint record while the slot holds none is
/// malformed resource wiring and fails with `InvalidAccountCount`.
pub open spec fn spec_process_instruction(
    data: Seq<u8>,
    caller: Identity,
    caller_is_signer: bool,
    mint_id: Identity,
    rent_exempt: bool,
    now: u64,
    slot: Option<MintRecord>,
    dest: TokenAccount,
) -> (Option<MintRecord>, TokenAccount, Result<(), AriaError>) {
    match spec_decode(data) {
        None => (slot, dest, Err(AriaError::InvalidInstructionData)),
        Some(ins) => match ins {
            ARIAInstruction::InitializeMint => {
                let step = spec_initialize_mint(caller, caller_is_signer, rent_exempt, slot);
                (step.0, dest, step.1)
            },
            ARIAInstruction::MintTokens { amount } => {
                if amount == 0 {
                    (slot, dest, Err(AriaError::InvalidInstructionData))
                } else {
                    match slot {
                        None => (slot, dest, Err(AriaError::InvalidAccountCount)),
                        Some(rec) => {
                            let step = spec_mint_tokens(
                                caller,
                                caller_is_signer,
                                mint_id,
                                rec,
                                dest,
                                now,
                                amount,
                            );
                            (Some(step.0), step.1, step.2)
                        },
                    }
                }
            },
            ARIAInstruction::ProposeAuthorityTransfer { new_authority } => {
                match slot {
                    None => (slot, dest, Err(AriaError::InvalidAccountCount)),
                    Some(rec) => {
                        let step = spec_propose_authority_transfer(
                            caller,
                            caller_is_signer,
                            rec,
                            new_authority,
                            now,
                        );
                        (Some(step.0), dest, step.1)
                    },
                }
            },
            ARIAInstruction::AcceptAuthorityTransfer => {
                match slot {
                    None => (slot, dest, Err(AriaError::InvalidAccountCount)),
                    Some(rec) => {
                        let step = spec_accept_authority_transfer(caller, caller_is_signer, rec, now);
                        (Some(step.0), dest, step.1)
                    },
                }
            },
            ARIAInstruction::CancelAuthorityTransfer => {
                match slot {
                    None => (slot, dest, Err(AriaError::InvalidAccountCount)),
                    Some(rec) => {
                        let step = spec_cancel_authority_transfer(caller, caller_is_signer, rec);
                        (Some(step.0), dest, step.1)
                    },
                }
            },
        },
    }
}

/// Decodes one operation request and routes it to its handler.
///
/// The caller's runtime verifies the signature claim, reads the persisted
/// slot, destination and clock, and writes the returned state back as one
/// conditional write; on any failure both the slot and the destination
/// are exactly as they were.
pub fn process_instruction(
    data: &[u8],
    caller: &Identity,
    caller_is_signer: bool,
    mint_id: &Identity,
    rent_exempt: bool,
    now: u64,
    slot: &mut Option<MintRecord>,
    dest: &mut TokenAccount,
) -> (r: Result<(), AriaError>)
    requires
        slot_wf(*old(slot)),
        slot_coherent(*mint_id, *old(slot), *old(dest)),
    ensures
        (*final(slot), *final(dest), r) == spec_process_instruction(
            data@,
            *caller,
            caller_is_signer,
            *mint_id,
            rent_exempt,
            now,
            *old(slot),
            *old(dest),
        ),
        slot_wf(*final(slot)),
        slot_coherent(*mint_id, *final(slot), *final(dest)),
        r is Err ==> *final(slot) == *old(slot) && *final(dest) == *old(dest),
{
    let ins = match decode_instruction(data) {
        Ok(i) => i,
        Err(e) => {
            return Err(e);
        },
    };
    match ins {
        ARIAInstruction::InitializeMint => {
            process_initialize_mint(caller, caller_is_signer, rent_exempt, slot)
        },
        ARIAInstruction::MintTokens { amount } => {
            if amount == 0 {
                return Err(AriaError::InvalidInstructionData);
            }
            match *slot {
                None => Err(AriaError::InvalidAccountCount),
                Some(rec0) => {
                    let mut rec = rec0;
                    let r = process_mint_tokens(
                        caller,
                        caller_is_signer,
                        mint_id,
                        &mut rec,
                        dest,
                        now,
                        amount,
                    );
                    *slot = Some(rec);
                    r
                },
            }
        },
        ARIAInstruction::ProposeAuthorityTransfer { new_authority } => {
            match *slot {
                None => Err(AriaError::InvalidAccountCount),
                Some(rec0) => {
                    let mut rec = rec0;
                    let r = process_propose_authority_transfer(
                        caller,
                        caller_is_signer,
                        &mut rec,
                        &new_authority,
                        now,
                    );
                    *slot = Some(rec);
                    r
                },
            }
        },
        ARIAInstruction::AcceptAuthorityTransfer => {
            match *slot {
                None => Err(AriaError::InvalidAccountCount),
                Some(rec0) => {
                    let mut rec = rec0;
                    let r = process_accept_authority_transfer(caller, caller_is_signer, &mut rec, now);
                    *slot = Some(rec);
                    r
                },
            }
        },
        ARIAInstruction::CancelAuthorityTransfer => {
            match *slot {
                None => Err(AriaError::InvalidAccountCount),
                Some(rec0) => {
                    let mut rec = rec0;
                    let r = process_cancel_authority_transfer(caller, caller_is_signer, &mut rec);
                    *slot = Some(rec);
                    r
                },
            }
        },
    }
}

} // verus!
