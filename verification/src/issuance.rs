use vstd::prelude::*;

use crate::errors::AriaError;
use crate::identity::Identity;
use crate::state::{ledger_coherent, MintRecord, TokenAccount, SUPPLY_CAP};

verus! {

/// The initialization transition: what the slot holds afterwards and what
/// the caller is told.  Guards run in a fixed order, first failure wins:
/// the caller must have signed, the slot must be empty, and the slot must
/// meet the store's minimum-funding predicate.  On success the slot
/// receives a fresh record with the caller as authority.
pub open spec fn spec_initialize_mint(
    caller: Identity,
    caller_is_signer: bool,
    rent_exempt: bool,
    slot: Option<MintRecord>,
) -> (Option<MintRecord>, Result<(), AriaError>) {
    if !caller_is_signer {
        (slot, Err(AriaError::InsufficientAuthority))
    } else if slot is Some {
        (slot, Err(AriaError::AlreadyInitialized))
    } else if !rent_exempt {
        (slot, Err(AriaError::AccountNotRentExempt))
    } else {
        (Some(MintRecord::fresh_spec(caller)), Ok(()))
    }
}

/// Creates the one mint record of this deployment.
///
/// A creation-only operation, never a reset: it fails on a slot that
/// already holds a record.  `rent_exempt` is the store's verdict on the
/// slot's minimum funding, computed by the caller's runtime.
pub fn process_initialize_mint(
    caller: &Identity,
    caller_is_signer: bool,
    rent_exempt: bool,
    slot: &mut Option<MintRecord>,
) -> (r: Result<(), AriaError>)
    ensures
        (*final(slot), r) == spec_initialize_mint(
            *caller,
            caller_is_signer,
            rent_exempt,
            *old(slot),
        ),
        r is Ok <==> caller_is_signer && (*old(slot)) is None && rent_exempt,
        r is Ok ==> *final(slot) == Some(MintRecord::fresh_spec(*caller)) && MintRecord::fresh_spec(
            *caller,
        ).wf(),
        r is Err ==> *final(slot) == *old(slot),
{
    if !caller_is_signer {
        return Err(AriaError::InsufficientAuthority);
    }
    if slot.is_some() {
        return Err(AriaError::AlreadyInitialized);
    }
    if !rent_exempt {
        return Err(AriaError::AccountNotRentExempt);
    }
    let fresh = MintRecord {
        decimals: crate::state::TOKEN_DECIMALS,
        supply: 0,
        mint_authority: *caller,
        last_mint_time: 0,
        transfer: crate::state::AuthorityTransferState::idle(),
    };
    *slot = Some(fresh);
    Ok(())
}

/// The mint transition: the record and destination afterwards and what the
/// caller is told.  Guards run in a fixed order, first failure wins: the
/// caller must have signed and be the mint authority; the destination must
/// belong to this asset; the new supply must stay within `SUPPLY_CAP`; and
/// the cooldown gate must be open.  On success the supply, the destination
/// balance and the last-mint time move together.
pub open spec fn spec_mint_tokens(
    caller: Identity,
    caller_is_signer: bool,
    mint_id: Identity,
    record: MintRecord,
    dest: TokenAccount,
    now: u64,
    amount: u64,
) -> (MintRecord, TokenAccount, Result<(), AriaError>) {
    if !caller_is_signer || caller != record.mint_authority {
        (record, dest, Err(AriaError::InsufficientAuthority))
    } else if dest.mint != mint_id {
        (record, dest, Err(AriaError::TokenMintMismatch))
    } else if record.supply + amount > SUPPLY_CAP {
        (record, dest, Err(AriaError::ExceedsSupplyCap))
    } else if !record.cooldown_open(now) {
        (record, dest, Err(AriaError::MintCooldownActive))
    } else {
        (
            MintRecord {
                supply: (record.supply + amount) as u64,
                last_mint_time: now,
                ..record
            },
            TokenAccount { amount: (dest.amount + amount) as u64, ..dest },
            Ok(()),
        )
    }
}

/// Creates `amount` new base units: increments the supply, credits the
/// destination and records the mint time, as one atomic unit — on any
/// failure neither the record nor the destination changes.
///
/// The supply check uses the cap itself, so no wrapping sum can slip past
/// it, and the supply can never leave the cap behind.
pub fn process_mint_tokens(
    caller: &Identity,
    caller_is_signer: bool,
    mint_id: &Identity,
    record: &mut MintRecord,
    dest: &mut TokenAccount,
    now: u64,
    amount: u64,
) -> (r: Result<(), AriaError>)
    requires
        amount >= 1,
        old(record).wf(),
        ledger_coherent(*mint_id, *old(record), *old(dest)),
    ensures
        (*final(record), *final(dest), r) == spec_mint_tokens(
            *caller,
            caller_is_signer,
            *mint_id,
            *old(record),
            *old(dest),
            now,
            amount,
        ),
        final(record).wf(),
        ledger_coherent(*mint_id, *final(record), *final(dest)),
        r is Ok <==> {
            &&& caller_is_signer
            &&& *caller == old(record).mint_authority
            &&& old(dest).mint == *mint_id
            &&& old(record).supply + amount <= SUPPLY_CAP
            &&& old(record).cooldown_open(now)
        },
        r is Ok ==> {
            &&& final(record).supply == old(record).supply + amount
            &&& final(dest).amount == old(dest).amount + amount
            &&& final(record).last_mint_time == now
            &&& final(record).mint_authority == old(record).mint_authority
            &&& final(record).decimals == old(record).decimals
            &&& final(record).transfer == old(record).transfer
            &&& final(dest).mint == old(dest).mint
        },
        r is Err ==> *final(record) == *old(record) && *final(dest) == *old(dest),
{
    if !caller_is_signer || !(*caller == record.mint_authority) {
        return Err(AriaError::InsufficientAuthority);
    }
    if !(dest.mint == *mint_id) {
        return Err(AriaError::TokenMintMismatch);
    }
    if amount > SUPPLY_CAP - record.supply {
        return Err(AriaError::ExceedsSupplyCap);
    }
    let gate_open = record.last_mint_time == 0 || (now >= crate::state::MINT_COOLDOWN && now
        - crate::state::MINT_COOLDOWN >= record.last_mint_time);
    if !gate_open {
        return Err(AriaError::MintCooldownActive);
    }
    record.supply = record.supply + amount;
    record.last_mint_time = now;
    dest.amount = dest.amount + amount;
    Ok(())
}

} // verus!
