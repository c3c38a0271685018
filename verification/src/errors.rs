//! The error taxonomy of the raffle lifecycle.
//!
//! Every error is terminal for the operation that raised it: the operation
//! aborts with no partial state change, and the error reaches the caller
//! verbatim.

use vstd::prelude::*;

verus! {

/// Why a lifecycle operation was rejected.
#[derive(Clone, Copy, Debug, PartialEq, Eq, Structural)]
pub enum RaffleError {
    /// The caller lacks the required authority proof.
    Unauthorized,
    /// Raffle creation was attempted with a deadline not in the future.
    EndTimestampAlreadyPassed,
    /// The ledger storage region is under-provisioned for the requested capacity.
    EntrantsAccountTooSmallForMaxEntrants,
    /// A purchase was attempted after the deadline.
    RaffleEnded,
    /// Arithmetic overflow while computing the total price.
    InvalidCalculation,
    /// A purchase would exceed the ledger's capacity.
    NotEnoughTicketsLeft,
    /// Closure was attempted before the deadline with the ledger not full.
    RaffleStillRunning,
}

} // verus!
