//! Authority and issuance engine for a single fixed-supply fungible asset.
//!
//! The library decides, for each of five operation kinds, whether the
//! operation is authorized, whether it would violate a global invariant,
//! and what state transition follows.  It enforces a hard supply ceiling,
//! gates minting by a cooldown window, and runs a two-phase protocol for
//! handing mint authority from one principal to another with a time-bounded
//! validity window.
//!
//! Account storage, signature verification, the wall clock and the token
//! runtime are external collaborators: callers verify signatures, read the
//! persisted records and the clock, hand the plain values to the handlers
//! here, and write the returned state back atomically.

pub mod dispatch;
pub mod errors;
pub mod identity;
pub mod instruction;
pub mod issuance;
pub mod laws;
pub mod state;
pub mod transfer;
