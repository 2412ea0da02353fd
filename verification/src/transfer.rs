use vstd::prelude::*;

use crate::errors::AriaError;
use crate::identity::Identity;
use crate::state::{AuthorityTransferState, MintRecord, TRANSFER_EXPIRY};

verus! {

/// The propose transition.  Guards, first failure wins: the caller must
/// have signed and be the current authority; the proposed principal must
/// differ from the sitting authority, since such a proposal asks for no
/// transfer at all.  On success the proposal overwrites any prior one,
/// last proposal wins — re-proposing the same principal extends the
/// validity window.
pub open spec fn spec_propose_authority_transfer(
    caller: Identity,
    caller_is_signer: bool,
    record: MintRecord,
    new_authority: Identity,
    now: u64,
) -> (MintRecord, Result<(), AriaError>) {
    if !caller_is_signer || caller != record.mint_authority {
        (record, Err(AriaError::InsufficientAuthority))
    } else if new_authority == record.mint_authority {
        (record, Err(AriaError::InvalidInstructionData))
    } else {
        (
            MintRecord {
                transfer: AuthorityTransferState {
                    proposed_authority: Some(new_authority),
                    proposal_time: now,
                },
                ..record
            },
            Ok(()),
        )
    }
}

/// Opens a proposal to hand the mint authority to `new_authority`.
pub fn process_propose_authority_transfer(
    caller: &Identity,
    caller_is_signer: bool,
    record: &mut MintRecord,
    new_authority: &Identity,
    now: u64,
) -> (r: Result<(), AriaError>)
    ensures
        (*final(record), r) == spec_propose_authority_transfer(
            *caller,
            caller_is_signer,
            *old(record),
            *new_authority,
            now,
        ),
        r is Ok <==> caller_is_signer && *caller == old(record).mint_authority && *new_authority
            != old(record).mint_authority,
        r is Ok ==> final(record).transfer == (AuthorityTransferState {
            proposed_authority: Some(*new_authority),
            proposal_time: now,
        }),
        final(record).mint_authority == old(record).mint_authority,
        final(record).supply == old(record).supply,
        final(record).last_mint_time == old(record).last_mint_time,
        final(record).decimals == old(record).decimals,
        r is Err ==> *final(record) == *old(record),
{
    if !caller_is_signer || !(*caller == record.mint_authority) {
        return Err(AriaError::InsufficientAuthority);
    }
    if *new_authority == record.mint_authority {
        return Err(AriaError::InvalidInstructionData);
    }
    record.transfer = AuthorityTransferState {
        proposed_authority: Some(*new_authority),
        proposal_time: now,
    };
    Ok(())
}

/// The accept transition.  Guards, first failure wins: the caller must
/// have signed; a proposal must be in flight, else the transfer is not
/// found; the proposal's validity window must not have elapsed, else the
/// transfer has expired; and the caller must be the proposed principal.
/// On success the caller becomes the authority and the proposal is
/// consumed, atomically — the only path by which the authority changes
/// after initialization.  A replayed accept finds no proposal and fails.
pub open spec fn spec_accept_authority_transfer(
    caller: Identity,
    caller_is_signer: bool,
    record: MintRecord,
    now: u64,
) -> (MintRecord, Result<(), AriaError>) {
    if !caller_is_signer {
        (record, Err(AriaError::InsufficientAuthority))
    } else if record.transfer.proposed_authority is None {
        (record, Err(AriaError::AuthorityTransferNotFound))
    } else if now > record.transfer.proposal_time + TRANSFER_EXPIRY {
        (record, Err(AriaError::AuthorityTransferExpired))
    } else if record.transfer.proposed_authority != Some(caller) {
        (record, Err(AriaError::InsufficientAuthority))
    } else {
        (
            MintRecord {
                mint_authority: caller,
                transfer: AuthorityTransferState::idle_spec(),
                ..record
            },
            Ok(()),
        )
    }
}

/// Takes the mint authority, as the principal a live proposal names.
pub fn process_accept_authority_transfer(
    caller: &Identity,
    caller_is_signer: bool,
    record: &mut MintRecord,
    now: u64,
) -> (r: Result<(), AriaError>)
    ensures
        (*final(record), r) == spec_accept_authority_transfer(
            *caller,
            caller_is_signer,
            *old(record),
            now,
        ),
        r is Ok <==> caller_is_signer && old(record).transfer.is_live_at(now) && old(
            record,
        ).transfer.proposed_authority == Some(*caller),
        r is Ok ==> final(record).mint_authority == *caller && final(record).transfer.is_idle(),
        final(record).supply == old(record).supply,
        final(record).last_mint_time == old(record).last_mint_time,
        final(record).decimals == old(record).decimals,
        r is Err ==> *final(record) == *old(record),
{
    if !caller_is_signer {
        return Err(AriaError::InsufficientAuthority);
    }
    if record.transfer.proposed_authority.is_none() {
        return Err(AriaError::AuthorityTransferNotFound);
    }
    let ts = record.transfer.proposal_time;
    if now > TRANSFER_EXPIRY && now - TRANSFER_EXPIRY > ts {
        return Err(AriaError::AuthorityTransferExpired);
    }
    let matches_caller = match record.transfer.proposed_authority {
        Some(p) => p == *caller,
        None => false,
    };
    if !matches_caller {
        return Err(AriaError::InsufficientAuthority);
    }
    record.mint_authority = *caller;
    record.transfer = AuthorityTransferState::idle();
    Ok(())
}

/// The cancel transition.  The one guard: the caller must have signed and
/// be the **current** authority — cancellation is the unilateral right of
/// the sitting holder, good even moments before acceptance.  Clearing is
/// unconditional: with no proposal in flight it is a no-op success, so the
/// operation is safely retriable.
pub open spec fn spec_cancel_authority_transfer(
    caller: Identity,
    caller_is_signer: bool,
    record: MintRecord,
) -> (MintRecord, Result<(), AriaError>) {
    if !caller_is_signer || caller != record.mint_authority {
        (record, Err(AriaError::InsufficientAuthority))
    } else {
        (MintRecord { transfer: AuthorityTransferState::idle_spec(), ..record }, Ok(()))
    }
}

/// Withdraws any in-flight proposal; succeeds even when none exists.
pub fn process_cancel_authority_transfer(
    caller: &Identity,
    caller_is_signer: bool,
    record: &mut MintRecord,
) -> (r: Result<(), AriaError>)
    ensures
        (*final(record), r) == spec_cancel_authority_transfer(
            *caller,
            caller_is_signer,
            *old(record),
        ),
        r is Ok <==> caller_is_signer && *caller == old(record).mint_authority,
        r is Ok ==> final(record).transfer.is_idle(),
        final(record).mint_authority == old(record).mint_authority,
        final(record).supply == old(record).supply,
        final(record).last_mint_time == old(record).last_mint_time,
        final(record).decimals == old(record).decimals,
        r is Err ==> *final(record) == *old(record),
{
    if !caller_is_signer || !(*caller == record.mint_authority) {
        return Err(AriaError::InsufficientAuthority);
    }
    record.transfer = AuthorityTransferState::idle();
    Ok(())
}

} // verus!
