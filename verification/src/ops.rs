//! The five lifecycle operations: `init_admin`, `set_admin`, `initialize`,
//! `buy` and `close`.
//!
//! Each operation is a pure state transition over a context struct that
//! mirrors the records the host hands it, together with the facts the
//! host's oracles established: the current time (`now`), whether a
//! principal's signature was verified, and whether it is the program's
//! deployment authority. The host performs the physical effects (asset
//! transfers, account creation and teardown) inside the same atomic commit;
//! this module decides whether they happen and what the resulting balances
//! and records are. Every precondition failure aborts the whole operation
//! with no state change.

use vstd::prelude::*;
use crate::entrants::BASE_SIZE;
use crate::entrants::Entrants;
use crate::entrants::entrants_view;
use crate::entrants::entrants_wf;
use crate::entrants::slot_start;
use crate::errors::RaffleError;
use crate::keys::Pubkey;
use crate::state::AdminSettings;
use crate::state::Raffle;

verus! {

/// Whether the caller proved itself to be the program's deployment
/// authority: its signature was verified and the deployment-authority
/// oracle recognized it. This is the bootstrap trust anchor, deliberately
/// independent of the stored admin identity.
pub open spec fn upgrade_authorized(is_signer: bool, is_upgrade_authority: bool) -> bool {
    is_signer && is_upgrade_authority
}

/// Whether the caller is the current admin: its signature was verified and
/// its identity equals the registry's `admin_key`.
pub open spec fn admin_authorized(settings: AdminSettings, authority: Pubkey, is_signer: bool) -> bool {
    is_signer && authority@ == settings.admin_key@
}

/// Whether a purchase of `amount` tickets is allowed: the deadline has not
/// been reached, the ledger has room for all `amount` tickets, and the
/// total price fits the asset's 64-bit unit.
pub open spec fn buy_allowed(raffle: Raffle, entrants: Entrants, now: i64, amount: u32) -> bool {
    &&& now < raffle.end_timestamp
    &&& entrants.total + amount <= entrants.max
    &&& raffle.price * amount <= u64::MAX
}

/// Whether the raffle may be closed: the deadline has passed, or the
/// ledger sold out.
pub open spec fn close_allowed(raffle: Raffle, entrants: Entrants, now: i64) -> bool {
    now > raffle.end_timestamp || entrants.total == entrants.max
}

/// One purchase attempt as a transition on the ledger counters and the
/// escrow balance: an allowed attempt sells `amount` tickets and collects
/// `price * amount`; a rejected one changes nothing.
pub open spec fn buy_step(
    raffle: Raffle,
    entrants: Entrants,
    escrow: int,
    now: i64,
    amount: u32,
) -> (Entrants, int) {
    if buy_allowed(raffle, entrants, now, amount) {
        (
            Entrants { total: (entrants.total + amount) as u32, max: entrants.max },
            escrow + raffle.price * amount,
        )
    } else {
        (entrants, escrow)
    }
}

/// What `init_admin` sees: the registry slot the host just allocated at the
/// well-known derived address, and the caller's authority proofs.
pub struct InitAdmin {
    /// The registry record to fill.
    pub admin_settings: AdminSettings,
    /// The calling principal.
    pub authority: Pubkey,
    /// Whether the caller's signature was verified.
    pub authority_is_signer: bool,
    /// Whether the caller is the program's deployment authority.
    pub authority_is_upgrade_authority: bool,
}

/// What `set_admin` sees: the existing registry and the caller's authority
/// proofs.
pub struct SetAdmin {
    /// The registry record to overwrite.
    pub admin_settings: AdminSettings,
    /// The calling principal.
    pub authority: Pubkey,
    /// Whether the caller's signature was verified.
    pub authority_is_signer: bool,
    /// Whether the caller is the program's deployment authority.
    pub authority_is_upgrade_authority: bool,
}

/// Creates the authority registry, installing its first admin identity.
///
/// Succeeds once: the host's storage layer rejects a second creation of the
/// registry's derived address before this transition runs. Only the
/// deployment authority may bootstrap the admin chain.
pub fn init_admin(ctx: &mut InitAdmin, admin_key: Pubkey) -> (r: Result<(), RaffleError>)
    ensures
        r is Ok <==> upgrade_authorized(
            old(ctx).authority_is_signer,
            old(ctx).authority_is_upgrade_authority,
        ),
        r is Ok ==> {
            &&& final(ctx).admin_settings.admin_key == admin_key
            &&& final(ctx).authority == old(ctx).authority
            &&& final(ctx).authority_is_signer == old(ctx).authority_is_signer
            &&& final(ctx).authority_is_upgrade_authority == old(ctx).authority_is_upgrade_authority
        },
        r is Err ==> {
            &&& r == Err::<(), RaffleError>(RaffleError::Unauthorized)
            &&& *final(ctx) == *old(ctx)
        },
{
    if !(ctx.authority_is_signer && ctx.authority_is_upgrade_authority) {
        return Err(RaffleError::Unauthorized);
    }
    ctx.admin_settings.admin_key = admin_key;
    Ok(())
}

/// Replaces the admin identity in the registry.
///
/// Requires the deployment-authority proof, not the current admin's
/// signature: this is a deliberate recovery channel that bypasses the admin
/// chain, so the chain can never become unset or unrecoverable.
pub fn set_admin(ctx: &mut SetAdmin, admin_key: Pubkey) -> (r: Result<(), RaffleError>)
    ensures
        r is Ok <==> upgrade_authorized(
            old(ctx).authority_is_signer,
            old(ctx).authority_is_upgrade_authority,
        ),
        r is Ok ==> {
            &&& final(ctx).admin_settings.admin_key == admin_key
            &&& final(ctx).authority == old(ctx).authority
            &&& final(ctx).authority_is_signer == old(ctx).authority_is_signer
            &&& final(ctx).authority_is_upgrade_authority == old(ctx).authority_is_upgrade_authority
        },
        r is Err ==> {
            &&& r == Err::<(), RaffleError>(RaffleError::Unauthorized)
            &&& *final(ctx) == *old(ctx)
        },
{
    if !(ctx.authority_is_signer && ctx.authority_is_upgrade_authority) {
        return Err(RaffleError::Unauthorized);
    }
    ctx.admin_settings.admin_key = admin_key;
    Ok(())
}

/// What `initialize` sees: the registry, the freshly allocated raffle and
/// ledger records, the pre-allocated (and zeroed) ledger storage region,
/// the escrow's balance, the results of the host's address derivation, and
/// the caller's authority proofs.
pub struct Initialize {
    /// The authority registry, read-only here.
    pub admin_settings: AdminSettings,
    /// The raffle record to fill.
    pub raffle: Raffle,
    /// The ledger header to fill.
    pub entrants: Entrants,
    /// The ledger's backing storage region, pre-allocated by the host.
    pub entrants_data: Vec<u8>,
    /// The escrow account's balance; the host creates the escrow empty.
    pub proceeds_balance: u64,
    /// The address of the ledger record, binding raffle to ledger.
    pub entrants_key: Pubkey,
    /// The derivation nonce of the raffle record's own address, computed by
    /// the host's deterministic address derivation.
    pub raffle_bump: u8,
    /// The calling principal.
    pub authority: Pubkey,
    /// Whether the caller's signature was verified.
    pub authority_is_signer: bool,
}

/// Everything `initialize` demands of its inputs: an admin caller, a
/// deadline in the future, and a storage region large enough for
/// `max_entrants` slots.
pub open spec fn initialize_allowed(
    settings: AdminSettings,
    authority: Pubkey,
    is_signer: bool,
    now: i64,
    end_timestamp: i64,
    max_entrants: u32,
    data_len: int,
) -> bool {
    &&& admin_authorized(settings, authority, is_signer)
    &&& now < end_timestamp
    &&& data_len >= slot_start(max_entrants as int)
}

/// Creates a raffle: records its parameters, binds it to its entrant
/// ledger, starts the ledger empty, and leaves the freshly created escrow
/// empty. All effects are one atomic unit; any rejection leaves every
/// record untouched.
pub fn initialize(
    ctx: &mut Initialize,
    now: i64,
    price: u64,
    end_timestamp: i64,
    max_entrants: u32,
) -> (r: Result<(), RaffleError>)
    ensures
        r is Ok <==> initialize_allowed(
            old(ctx).admin_settings,
            old(ctx).authority,
            old(ctx).authority_is_signer,
            now,
            end_timestamp,
            max_entrants,
            old(ctx).entrants_data@.len() as int,
        ),
        !admin_authorized(old(ctx).admin_settings, old(ctx).authority, old(ctx).authority_is_signer)
            ==> r == Err::<(), RaffleError>(RaffleError::Unauthorized),
        admin_authorized(old(ctx).admin_settings, old(ctx).authority, old(ctx).authority_is_signer)
            && now >= end_timestamp ==> r == Err::<(), RaffleError>(
            RaffleError::EndTimestampAlreadyPassed,
        ),
        admin_authorized(old(ctx).admin_settings, old(ctx).authority, old(ctx).authority_is_signer)
            && now < end_timestamp && old(ctx).entrants_data@.len() < slot_start(
            max_entrants as int,
        ) ==> r == Err::<(), RaffleError>(RaffleError::EntrantsAccountTooSmallForMaxEntrants),
        r is Err ==> *final(ctx) == *old(ctx),
        r is Ok ==> {
            &&& final(ctx).raffle == (Raffle {
                bump: old(ctx).raffle_bump,
                price,
                end_timestamp,
                entrants: old(ctx).entrants_key,
            })
            &&& final(ctx).entrants == (Entrants { total: 0, max: max_entrants })
            &&& final(ctx).proceeds_balance == 0
            &&& entrants_wf(final(ctx).entrants, final(ctx).entrants_data@)
            &&& entrants_view(final(ctx).entrants, final(ctx).entrants_data@)
                == Seq::<Seq<u8>>::empty()
            &&& final(ctx).entrants_data@ == old(ctx).entrants_data@
            &&& final(ctx).admin_settings == old(ctx).admin_settings
            &&& final(ctx).entrants_key == old(ctx).entrants_key
            &&& final(ctx).raffle_bump == old(ctx).raffle_bump
            &&& final(ctx).authority == old(ctx).authority
            &&& final(ctx).authority_is_signer == old(ctx).authority_is_signer
        },
{
    if !(ctx.authority_is_signer && ctx.authority.equals(&ctx.admin_settings.admin_key)) {
        return Err(RaffleError::Unauthorized);
    }
    if now >= end_timestamp {
        return Err(RaffleError::EndTimestampAlreadyPassed);
    }
    let needed: u64 = (BASE_SIZE as u64) + 32u64 * (max_entrants as u64);
    if (ctx.entrants_data.len() as u64) < needed {
        return Err(RaffleError::EntrantsAccountTooSmallForMaxEntrants);
    }
    ctx.raffle = Raffle { bump: ctx.raffle_bump, price, end_timestamp, entrants: ctx.entrants_key };
    ctx.entrants = Entrants { total: 0, max: max_entrants };
    ctx.proceeds_balance = 0;
    proof {
        assert(entrants_view(ctx.entrants, ctx.entrants_data@) =~= Seq::<Seq<u8>>::empty());
    }
    Ok(())
}

/// What `buy` sees: the raffle and its ledger, the escrow balance, and the
/// buyer's identity (the owner of the paying asset account).
///
/// The buyer's own balance stays with the asset service: the physical
/// transfer of `price * amount` is authorized by the buyer's signature and
/// performed by that service inside the same atomic commit, and its failure
/// (insufficient balance, bad authorization) aborts the whole operation.
pub struct Buy {
    /// The raffle's immutable parameters.
    pub raffle: Raffle,
    /// The ledger header.
    pub entrants: Entrants,
    /// The ledger's backing storage region.
    pub entrants_data: Vec<u8>,
    /// The escrow account's balance.
    pub proceeds_balance: u64,
    /// The buyer's identity, recorded once per purchased ticket.
    pub buyer: Pubkey,
}

/// Purchases `amount` tickets: appends `amount` copies of the buyer's
/// identity to the ledger, in increasing slot order, and moves
/// `price * amount` into the escrow. All-or-nothing: capacity and the
/// price multiplication are checked up front, so a rejected call leaves
/// the ledger and the escrow exactly as they were.
pub fn buy(ctx: &mut Buy, now: i64, amount: u32) -> (r: Result<(), RaffleError>)
    requires
        entrants_wf(old(ctx).entrants, old(ctx).entrants_data@),
        buy_allowed(old(ctx).raffle, old(ctx).entrants, now, amount) ==> old(ctx).proceeds_balance + old(ctx).raffle.price * amount <= u64::MAX,
    ensures
        entrants_wf(final(ctx).entrants, final(ctx).entrants_data@),
        final(ctx).raffle == old(ctx).raffle,
        final(ctx).buyer == old(ctx).buyer,
        final(ctx).entrants.max == old(ctx).entrants.max,
        final(ctx).entrants.total >= old(ctx).entrants.total,
        final(ctx).entrants_data@.len() == old(ctx).entrants_data@.len(),
        r is Ok <==> buy_allowed(old(ctx).raffle, old(ctx).entrants, now, amount),
        now >= old(ctx).raffle.end_timestamp ==> r == Err::<(), RaffleError>(
            RaffleError::RaffleEnded,
        ),
        now < old(ctx).raffle.end_timestamp && old(ctx).entrants.total + amount > old(ctx).entrants.max ==> r == Err::<(), RaffleError>(RaffleError::NotEnoughTicketsLeft),
        now < old(ctx).raffle.end_timestamp && old(ctx).entrants.total + amount <= old(ctx).entrants.max && old(ctx).raffle.price * amount > u64::MAX ==> r == Err::<(), RaffleError>(
            RaffleError::InvalidCalculation,
        ),
        r is Err ==> *final(ctx) == *old(ctx),
        r is Ok ==> {
            &&& final(ctx).entrants.total == old(ctx).entrants.total + amount
            &&& final(ctx).proceeds_balance == old(ctx).proceeds_balance + old(ctx).raffle.price * amount
            &&& entrants_view(final(ctx).entrants, final(ctx).entrants_data@) == entrants_view(
                old(ctx).entrants,
                old(ctx).entrants_data@,
            ) + Seq::new(amount as nat, |i: int| old(ctx).buyer@)
            &&& forall|k: int|
                0 <= k < old(ctx).entrants_data@.len() && !(slot_start(
                    old(ctx).entrants.total as int,
                ) <= k < slot_start(old(ctx).entrants.total + amount)) ==> final(ctx).entrants_data@[k] == old(ctx).entrants_data@[k]
        },
        (final(ctx).entrants, final(ctx).proceeds_balance as int) == buy_step(
            old(ctx).raffle,
            old(ctx).entrants,
            old(ctx).proceeds_balance as int,
            now,
            amount,
        ),
{
    if now >= ctx.raffle.end_timestamp {
        return Err(RaffleError::RaffleEnded);
    }
    if (ctx.entrants.total as u64) + (amount as u64) > (ctx.entrants.max as u64) {
        return Err(RaffleError::NotEnoughTicketsLeft);
    }
    let cost: u64 = match ctx.raffle.price.checked_mul(amount as u64) {
        Some(c) => c,
        None => {
            return Err(RaffleError::InvalidCalculation);
        },
    };
    let ghost pre = *old(ctx);
    let mut i: u32 = 0;
    while i < amount
        invariant
            i <= amount,
            buy_allowed(pre.raffle, pre.entrants, now, amount),
            entrants_wf(pre.entrants, pre.entrants_data@),
            ctx.raffle == pre.raffle,
            ctx.buyer == pre.buyer,
            ctx.proceeds_balance == pre.proceeds_balance,
            ctx.entrants.max == pre.entrants.max,
            ctx.entrants.total == pre.entrants.total + i,
            ctx.entrants_data@.len() == pre.entrants_data@.len(),
            entrants_wf(ctx.entrants, ctx.entrants_data@),
            entrants_view(ctx.entrants, ctx.entrants_data@) == entrants_view(
                pre.entrants,
                pre.entrants_data@,
            ) + Seq::new(i as nat, |k: int| pre.buyer@),
            forall|k: int|
                0 <= k < pre.entrants_data@.len() && !(slot_start(pre.entrants.total as int) <= k
                    < slot_start(pre.entrants.total + i)) ==> ctx.entrants_data@[k]
                    == pre.entrants_data@[k],
        decreases amount - i,
    {
        let ghost before_view = entrants_view(ctx.entrants, ctx.entrants_data@);
        // capacity for the whole batch was checked up front, so no single
        // append can be rejected
        let _ = ctx.entrants.append_entrant(&mut ctx.entrants_data, ctx.buyer);
        i = i + 1;
        proof {
            assert(before_view.push(pre.buyer@) =~= entrants_view(
                pre.entrants,
                pre.entrants_data@,
            ) + Seq::new(i as nat, |k: int| pre.buyer@));
        }
    }
    ctx.proceeds_balance = ctx.proceeds_balance + cost;
    Ok(())
}

/// What `close` sees: the registry, the raffle and its ledger, the escrow
/// balance, the admin's designated receiving balance, and the caller's
/// authority proofs.
///
/// The drain of the escrow is authorized by the raffle record's derived
/// principal — a capability the program itself exercises during this
/// operation, never an external signer. The teardown of the escrow, the
/// raffle record and the ledger (returning their storage deposits to the
/// admin) is the host's account-closing step of the same atomic commit.
pub struct Close {
    /// The authority registry, read-only here.
    pub admin_settings: AdminSettings,
    /// The raffle's immutable parameters.
    pub raffle: Raffle,
    /// The ledger header.
    pub entrants: Entrants,
    /// The escrow account's balance.
    pub proceeds_balance: u64,
    /// The balance of the admin's receiving account.
    pub authority_proceeds_balance: u64,
    /// The calling principal.
    pub authority: Pubkey,
    /// Whether the caller's signature was verified.
    pub authority_is_signer: bool,
}

/// Closes the raffle: drains the escrow's entire balance to the admin's
/// receiving account and hands the raffle record, the ledger and the
/// emptied escrow to the host for teardown. All-or-nothing: a rejected
/// call moves nothing.
///
/// The running gate is decisive regardless of the caller: while the
/// deadline has not passed and the ledger is not full, every call fails
/// with `RaffleStillRunning`, whoever made it.
pub fn close(ctx: &mut Close, now: i64) -> (r: Result<(), RaffleError>)
    requires
        close_allowed(old(ctx).raffle, old(ctx).entrants, now) ==> old(ctx).authority_proceeds_balance + old(ctx).proceeds_balance <= u64::MAX,
    ensures
        r is Ok <==> close_allowed(old(ctx).raffle, old(ctx).entrants, now) && admin_authorized(
            old(ctx).admin_settings,
            old(ctx).authority,
            old(ctx).authority_is_signer,
        ),
        !close_allowed(old(ctx).raffle, old(ctx).entrants, now) ==> r == Err::<(), RaffleError>(
            RaffleError::RaffleStillRunning,
        ),
        close_allowed(old(ctx).raffle, old(ctx).entrants, now) && !admin_authorized(
            old(ctx).admin_settings,
            old(ctx).authority,
            old(ctx).authority_is_signer,
        ) ==> r == Err::<(), RaffleError>(RaffleError::Unauthorized),
        r is Err ==> *final(ctx) == *old(ctx),
        r is Ok ==> {
            &&& final(ctx).proceeds_balance == 0
            &&& final(ctx).authority_proceeds_balance == old(ctx).authority_proceeds_balance
                + old(ctx).proceeds_balance
            &&& final(ctx).admin_settings == old(ctx).admin_settings
            &&& final(ctx).raffle == old(ctx).raffle
            &&& final(ctx).entrants == old(ctx).entrants
            &&& final(ctx).authority == old(ctx).authority
            &&& final(ctx).authority_is_signer == old(ctx).authority_is_signer
        },
{
    if !(now > ctx.raffle.end_timestamp || ctx.entrants.total == ctx.entrants.max) {
        return Err(RaffleError::RaffleStillRunning);
    }
    if !(ctx.authority_is_signer && ctx.authority.equals(&ctx.admin_settings.admin_key)) {
        return Err(RaffleError::Unauthorized);
    }
    ctx.authority_proceeds_balance = ctx.authority_proceeds_balance + ctx.proceeds_balance;
    ctx.proceeds_balance = 0;
    Ok(())
}

} // verus!
