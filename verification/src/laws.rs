//! Laws of the raffle lifecycle that span whole runs rather than single
//! calls: how an arbitrary sequence of purchase attempts moves the ledger
//! and the escrow, and what the admin chain admits.

use vstd::prelude::*;
use vstd::arithmetic::mul::lemma_mul_is_distributive_sub;
use crate::entrants::Entrants;
use crate::keys::Pubkey;
use crate::ops::admin_authorized;
use crate::ops::buy_allowed;
use crate::ops::buy_step;
use crate::state::AdminSettings;
use crate::state::Raffle;

verus! {

/// The ledger counters and the escrow balance after a sequence of purchase
/// attempts, each a pair of the time it was made at and the amount it asked
/// for. Every attempt takes the `buy_step` transition that the executable
/// `buy` is proved to implement.
pub open spec fn apply_buys(
    raffle: Raffle,
    entrants: Entrants,
    escrow: int,
    events: Seq<(i64, u32)>,
) -> (Entrants, int)
    decreases events.len(),
{
    if events.len() == 0 {
        (entrants, escrow)
    } else {
        let stepped = buy_step(raffle, entrants, escrow, events[0].0, events[0].1);
        apply_buys(raffle, stepped.0, stepped.1, events.drop_first())
    }
}

/// Capacity invariant: over any sequence of purchase attempts against one
/// raffle, the ledger's count never exceeds its capacity, the capacity
/// never changes, and the count never decreases. An attempt that would
/// overrun the capacity is not an allowed step, so it leaves the count
/// unchanged.
pub proof fn lemma_capacity_invariant(
    raffle: Raffle,
    entrants: Entrants,
    escrow: int,
    events: Seq<(i64, u32)>,
)
    requires
        entrants.total <= entrants.max,
    ensures
        apply_buys(raffle, entrants, escrow, events).0.total
            <= apply_buys(raffle, entrants, escrow, events).0.max,
        apply_buys(raffle, entrants, escrow, events).0.max == entrants.max,
        apply_buys(raffle, entrants, escrow, events).0.total >= entrants.total,
    decreases events.len(),
{
    if events.len() > 0 {
        let stepped = buy_step(raffle, entrants, escrow, events[0].0, events[0].1);
        lemma_capacity_invariant(raffle, stepped.0, stepped.1, events.drop_first());
    }
}

/// Escrow conservation: over any sequence of purchase attempts against one
/// raffle, the escrow balance grows by exactly the ticket price times the
/// number of tickets sold — a rejected attempt moves nothing. Together with
/// `close`'s contract (the admin's receiving balance grows by the whole
/// escrow balance, which ends at zero) this accounts for every unit the
/// buyers paid.
pub proof fn lemma_escrow_conservation(
    raffle: Raffle,
    entrants: Entrants,
    escrow: int,
    events: Seq<(i64, u32)>,
)
    requires
        entrants.total <= entrants.max,
    ensures
        apply_buys(raffle, entrants, escrow, events).1 == escrow + raffle.price * (apply_buys(
            raffle,
            entrants,
            escrow,
            events,
        ).0.total - entrants.total),
    decreases events.len(),
{
    let end = apply_buys(raffle, entrants, escrow, events);
    if events.len() == 0 {
        assert(raffle.price * (entrants.total - entrants.total) == 0) by (nonlinear_arith);
    } else {
        let now = events[0].0;
        let amount = events[0].1;
        let stepped = buy_step(raffle, entrants, escrow, now, amount);
        lemma_escrow_conservation(raffle, stepped.0, stepped.1, events.drop_first());
        if buy_allowed(raffle, entrants, now, amount) {
            lemma_mul_is_distributive_sub(
                raffle.price as int,
                end.0.total - entrants.total,
                end.0.total - stepped.0.total,
            );
        }
    }
}

/// Admin chain: once the registry holds `x` as its admin identity — as it
/// does right after a successful `set_admin(x)` or `init_admin(x)` — a
/// raffle creation or closure can pass its authority check only for a
/// caller whose identity equals `x`, whatever the admin was before.
/// `initialize` and `close` each ensure that success implies
/// `admin_authorized` for the registry they ran against.
pub proof fn lemma_admin_chain(
    settings: AdminSettings,
    x: Pubkey,
    caller: Pubkey,
    is_signer: bool,
)
    requires
        settings.admin_key@ == x@,
        admin_authorized(settings, caller, is_signer),
    ensures
        caller@ == x@,
{
}

} // verus!
