use vstd::prelude::*;

use crate::dispatch::{slot_coherent, slot_wf, spec_process_instruction};
use crate::errors::AriaError;
use crate::identity::Identity;
use crate::issuance::spec_mint_tokens;
use crate::state::{
    AuthorityTransferState, MintRecord, TokenAccount, MINT_COOLDOWN, SUPPLY_CAP, TRANSFER_EXPIRY,
};
use crate::transfer::{
    spec_accept_authority_transfer, spec_cancel_authority_transfer,
    spec_propose_authority_transfer,
};

verus! {

/// One attempted mint in a sequence: who called, with what signature
/// claim, against which asset and destination, when, and how much.
pub struct MintCall {
    pub caller: Identity,
    pub caller_is_signer: bool,
    pub mint_id: Identity,
    pub dest: TokenAccount,
    pub now: u64,
    pub amount: u64,
}

/// The mint record left behind by a sequence of mint attempts, each one
/// applied in order, failed attempts leaving the record as it was.
pub open spec fn spec_mint_record_after(record: MintRecord, calls: Seq<MintCall>) -> MintRecord
    decreases calls.len(),
{
    if calls.len() == 0 {
        record
    } else {
        let c = calls[0];
        let step = spec_mint_tokens(
            c.caller,
            c.caller_is_signer,
            c.mint_id,
            record,
            c.dest,
            c.now,
            c.amount,
        );
        spec_mint_record_after(step.0, calls.drop_first())
    }
}

/// Law: under every sequence of mint attempts — authorized or not, against
/// any destinations, at any times, with any amounts — the supply never
/// exceeds `SUPPLY_CAP`.  The claim holds for every sequence, so in
/// particular for every prefix of a longer one: every intermediate supply
/// obeys the cap as well.  Attempts whose combined amounts would pass the
/// cap cannot all succeed, because the record each attempt sees already
/// counts every earlier success.
pub proof fn lemma_supply_never_exceeds_cap(record: MintRecord, calls: Seq<MintCall>)
    requires
        record.wf(),
    ensures
        spec_mint_record_after(record, calls).supply <= SUPPLY_CAP,
    decreases calls.len(),
{
    if calls.len() > 0 {
        let c = calls[0];
        let step = spec_mint_tokens(
            c.caller,
            c.caller_is_signer,
            c.mint_id,
            record,
            c.dest,
            c.now,
            c.amount,
        );
        lemma_supply_never_exceeds_cap(step.0, calls.drop_first());
    }
}

/// Law: the cap holds at every point along a sequence of mint attempts,
/// not only at its end — no prefix of any sequence can overshoot and come
/// back.
pub proof fn lemma_supply_within_cap_at_every_point(record: MintRecord, calls: Seq<MintCall>)
    requires
        record.wf(),
    ensures
        forall|i: int|
            0 <= i <= calls.len() ==> #[trigger] spec_mint_record_after(
                record,
                calls.take(i),
            ).supply <= SUPPLY_CAP,
{
    assert forall|i: int| 0 <= i <= calls.len() implies #[trigger] spec_mint_record_after(
        record,
        calls.take(i),
    ).supply <= SUPPLY_CAP by {
        lemma_supply_never_exceeds_cap(record, calls.take(i));
    }
}

/// Law: one dispatched instruction — whichever of the five operations,
/// well-formed or not, authorized or not — preserves the store invariants:
/// any record in the slot stays within the supply cap, and no balance of
/// the asset passes the circulating supply.  By induction, every sequence
/// of dispatched instructions keeps them, from any state that has them.
pub proof fn lemma_dispatch_preserves_invariants(
    data: Seq<u8>,
    caller: Identity,
    caller_is_signer: bool,
    mint_id: Identity,
    rent_exempt: bool,
    now: u64,
    slot: Option<MintRecord>,
    dest: TokenAccount,
)
    requires
        slot_wf(slot),
        slot_coherent(mint_id, slot, dest),
    ensures
        ({
            let step = spec_process_instruction(
                data,
                caller,
                caller_is_signer,
                mint_id,
                rent_exempt,
                now,
                slot,
                dest,
            );
            &&& slot_wf(step.0)
            &&& slot_coherent(mint_id, step.0, step.1)
        }),
{
}

/// Law: a mint that succeeds at time `t1 >= 1` closes the cooldown gate.
/// A second attempt on the same record — by the same authority, against a
/// matching destination, within the cap — fails with `MintCooldownActive`
/// and changes nothing while `t2 < t1 + MINT_COOLDOWN`, and succeeds
/// exactly at and after that boundary.  (A first success at time zero
/// leaves the record looking untouched, so no window opens there; hence
/// `t1 >= 1`.)
pub proof fn lemma_mint_cooldown_window(
    caller: Identity,
    mint_id: Identity,
    record: MintRecord,
    dest: TokenAccount,
    t1: u64,
    amount1: u64,
    dest2: TokenAccount,
    t2: u64,
    amount2: u64,
)
    requires
        t1 >= 1,
        spec_mint_tokens(caller, true, mint_id, record, dest, t1, amount1).2 is Ok,
        dest2.mint == mint_id,
        spec_mint_tokens(caller, true, mint_id, record, dest, t1, amount1).0.supply + amount2
            <= SUPPLY_CAP,
    ensures
        t2 < t1 + MINT_COOLDOWN ==> {
            let rec1 = spec_mint_tokens(caller, true, mint_id, record, dest, t1, amount1).0;
            let second = spec_mint_tokens(caller, true, mint_id, rec1, dest2, t2, amount2);
            &&& second.2 == Err::<(), AriaError>(AriaError::MintCooldownActive)
            &&& second.0 == rec1
            &&& second.1 == dest2
        },
        t2 >= t1 + MINT_COOLDOWN ==> {
            let rec1 = spec_mint_tokens(caller, true, mint_id, record, dest, t1, amount1).0;
            let second = spec_mint_tokens(caller, true, mint_id, rec1, dest2, t2, amount2);
            &&& second.2 is Ok
            &&& second.0.supply == rec1.supply + amount2
        },
{
}

/// Law: a proposal by the sitting authority, accepted by the proposed
/// principal within `TRANSFER_EXPIRY`, hands the authority over and
/// returns the protocol to idle; a replay of the accept then finds no
/// proposal and fails with `AuthorityTransferNotFound`, leaving the record
/// untouched — the handover applies once.
pub proof fn lemma_transfer_handover(
    record: MintRecord,
    new_authority: Identity,
    t1: u64,
    t2: u64,
    t3: u64,
)
    requires
        new_authority != record.mint_authority,
        t2 <= t1 + TRANSFER_EXPIRY,
    ensures
        ({
            let proposed = spec_propose_authority_transfer(
                record.mint_authority,
                true,
                record,
                new_authority,
                t1,
            );
            let accepted = spec_accept_authority_transfer(new_authority, true, proposed.0, t2);
            let replayed = spec_accept_authority_transfer(new_authority, true, accepted.0, t3);
            &&& proposed.1 is Ok
            &&& accepted.1 is Ok
            &&& accepted.0.mint_authority == new_authority
            &&& accepted.0.transfer.is_idle()
            &&& accepted.0.supply == record.supply
            &&& replayed.1 == Err::<(), AriaError>(AriaError::AuthorityTransferNotFound)
            &&& replayed.0 == accepted.0
        }),
{
}

/// Law: once a proposal's validity window has elapsed, accepting fails
/// with `AuthorityTransferExpired` — whoever calls, even the proposed
/// principal — and the record, its authority included, is unchanged.
pub proof fn lemma_accept_after_expiry(caller: Identity, record: MintRecord, now: u64)
    requires
        record.transfer.proposed_authority is Some,
        now > record.transfer.proposal_time + TRANSFER_EXPIRY,
    ensures
        spec_accept_authority_transfer(caller, true, record, now).1 == Err::<(), AriaError>(
            AriaError::AuthorityTransferExpired,
        ),
        spec_accept_authority_transfer(caller, true, record, now).0 == record,
{
}

/// Law: cancellation by the sitting authority is idempotent.  One call
/// succeeds and leaves the protocol idle whether or not a proposal was in
/// flight; a second call in a row succeeds and changes nothing at all.
pub proof fn lemma_cancel_idempotent(caller: Identity, record: MintRecord)
    requires
        caller == record.mint_authority,
    ensures
        ({
            let once = spec_cancel_authority_transfer(caller, true, record);
            let twice = spec_cancel_authority_transfer(caller, true, once.0);
            &&& once.1 is Ok
            &&& once.0.transfer.is_idle()
            &&& once.0 == (MintRecord { transfer: AuthorityTransferState::idle_spec(), ..record })
            &&& twice.1 is Ok
            &&& twice.0 == once.0
        }),
{
}

} // verus!
