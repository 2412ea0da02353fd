use vstd::prelude::*;

use crate::identity::Identity;

verus! {

/// Decimal precision fixed at initialization.
pub const TOKEN_DECIMALS: u8 = 9;

/// Hard ceiling on the circulating supply, in base units:
/// one hundred million whole tokens at nine decimals.
pub const SUPPLY_CAP: u64 = 100_000_000_000_000_000;

/// Minimum number of seconds between two successful mints.
pub const MINT_COOLDOWN: u64 = 3600;

/// Number of seconds an authority transfer proposal stays valid.
pub const TRANSFER_EXPIRY: u64 = 86400;

/// An in-flight authority handover proposal, co-located with the mint
/// record and updated atomically alongside it.
///
/// `proposed_authority == None` means no transfer is in flight, and
/// `proposal_time` is then meaningless.
#[derive(Debug, Clone, Copy, PartialEq, Eq, Structural)]
pub struct AuthorityTransferState {
    pub proposed_authority: Option<Identity>,
    pub proposal_time: u64,
}

impl AuthorityTransferState {
    /// No transfer in flight.
    pub open spec fn is_idle(self) -> bool {
        self.proposed_authority is None
    }

    /// The cleared state: no proposal, zeroed proposal time.
    pub open spec fn idle_spec() -> AuthorityTransferState {
        AuthorityTransferState { proposed_authority: None, proposal_time: 0 }
    }

    pub fn idle() -> (s: AuthorityTransferState)
        ensures
            s == AuthorityTransferState::idle_spec(),
    {
        AuthorityTransferState { proposed_authority: None, proposal_time: 0 }
    }

    /// A proposal is live at `now` while it exists and its validity window
    /// has not elapsed.  An expired proposal is treated as absent by every
    /// reader, even before explicit cancellation clears it.
    pub open spec fn is_live_at(self, now: u64) -> bool {
        &&& self.proposed_authority is Some
        &&& now <= self.proposal_time + TRANSFER_EXPIRY
    }
}

/// The persisted record of the one asset instance: circulating supply,
/// the principal currently permitted to mint, decimal precision, the time
/// of the last successful mint, and the in-flight transfer proposal.
///
/// `last_mint_time == 0` means no mint has ever succeeded, so the cooldown
/// gate does not apply yet.
#[derive(Debug, Clone, Copy, PartialEq, Eq, Structural)]
pub struct MintRecord {
    pub decimals: u8,
    pub supply: u64,
    pub mint_authority: Identity,
    pub last_mint_time: u64,
    pub transfer: AuthorityTransferState,
}

impl MintRecord {
    /// The record's invariant: the circulating supply never exceeds the cap.
    pub open spec fn wf(self) -> bool {
        self.supply <= SUPPLY_CAP
    }

    /// The cooldown gate is open at `now`: either no mint has ever
    /// succeeded, or at least `MINT_COOLDOWN` seconds have passed since
    /// the last one.  Minting succeeds exactly at the boundary.
    pub open spec fn cooldown_open(self, now: u64) -> bool {
        self.last_mint_time == 0 || now >= self.last_mint_time + MINT_COOLDOWN
    }

    /// The record written by initialization: zero supply, the caller as
    /// authority, fixed decimals, no mint yet, no transfer in flight.
    pub open spec fn fresh_spec(authority: Identity) -> MintRecord {
        MintRecord {
            decimals: TOKEN_DECIMALS,
            supply: 0,
            mint_authority: authority,
            last_mint_time: 0,
            transfer: AuthorityTransferState::idle_spec(),
        }
    }
}

/// A holder's balance record, as the ledger stores it: the asset it belongs
/// to and the amount held.
#[derive(Debug, Clone, Copy, PartialEq, Eq, Structural)]
pub struct TokenAccount {
    pub mint: Identity,
    pub amount: u64,
}

/// Ledger coherence between a mint record and one balance record: a balance
/// of this asset never exceeds the circulating supply, since the supply
/// counts every unit ever credited.  The store maintains this; mint
/// operations preserve it.
pub open spec fn ledger_coherent(mint_id: Identity, record: MintRecord, dest: TokenAccount) -> bool {
    dest.mint == mint_id ==> dest.amount <= record.supply
}

} // verus!
