//! The persistent records of the raffle: the authority registry and the
//! raffle record itself.

use vstd::prelude::*;
use crate::keys::Pubkey;

verus! {

/// The authority registry: holds the single current admin identity.
///
/// Exactly one registry exists process-wide, at a well-known derived
/// address; the host's storage layer enforces that. It is created once by
/// `init_admin` and only ever mutated by `set_admin`, never deleted.
#[derive(Clone, Copy, Debug)]
pub struct AdminSettings {
    /// The identity that may create and close raffles.
    pub admin_key: Pubkey,
}

/// One raffle's immutable-after-creation parameters.
///
/// Created by `initialize`, destroyed (by the host's account teardown) at
/// `close`. The escrow account's sole authorizing principal is the address
/// derived deterministically from this record; `bump` is the derivation
/// nonce that lets that address be reconstructed.
#[derive(Clone, Copy, Debug)]
pub struct Raffle {
    /// Nonce used to reconstruct this record's own derived address.
    pub bump: u8,
    /// Price per ticket, in the escrowed asset's unit.
    pub price: u64,
    /// Deadline, exclusive: a sale is allowed strictly before it.
    pub end_timestamp: i64,
    /// The entrant ledger this record is bound to, one-to-one.
    pub entrants: Pubkey,
}

} // verus!
