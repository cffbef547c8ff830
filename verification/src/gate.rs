//! The authorization gate: one decision procedure per operation family.
//!
//! Each asset-mutating operation (issue, destroy, move, freeze, unfreeze) is
//! gated by the pause flag alone: while the asset is paused the request is
//! rejected with [`ErrorCode::ContractPaused`], otherwise it emits the
//! [`LedgerAction`] to forward to the external ledger, carrying exactly the
//! requested accounts and amount. Whether the declared authority really signs
//! the call is the invocation environment's burden, re-checked by the ledger
//! itself; this module never inspects it. Pause and unpause are gated instead by
//! the admin check — and only by it, so that pausing can never block a later
//! unpause.
//!
//! Each decision is written twice: as a transparent spec function, the exact
//! statement of what the operation decides, and as an executable function
//! whose contract says it returns precisely that decision.

use crate::identity::Identity;
use crate::state::State;
use vstd::prelude::*;

verus! {

/// The two errors this module itself can raise. Every other failure (bad
/// account, insufficient balance) belongs to the external ledger and is
/// propagated by the caller unmodified.
#[derive(Clone, Copy, Debug, PartialEq, Eq, Structural)]
pub enum ErrorCode {
    /// An asset-mutating operation was attempted while the asset is paused.
    ContractPaused,
    /// A pause or unpause caller is not the admin.
    Unauthorized,
}

/// A request approved for forwarding to the external ledger, carrying the
/// operation's own data and nothing else. The callers of this module
/// perform the actual ledger call; the decision procedures only decide.
#[derive(Clone, Copy, Debug)]
pub enum LedgerAction {
    /// Mint `amount` base units of `mint` to `destination`.
    Issue { mint: Identity, destination: Identity, authority: Identity, amount: u64 },
    /// Burn `amount` base units of `mint` from `source`.
    Destroy { mint: Identity, source: Identity, authority: Identity, amount: u64 },
    /// Transfer `amount` base units from `source` to `destination`.
    Move { source: Identity, destination: Identity, authority: Identity, amount: u64 },
    /// Freeze `account` for `mint`: no further movement until unfrozen.
    Freeze { account: Identity, mint: Identity, authority: Identity },
    /// Unfreeze a frozen `account` for `mint`.
    Unfreeze { account: Identity, mint: Identity, authority: Identity },
}

/// The asset's decimal precision: base units per whole token are ten to
/// this power. Fixed at creation, a hard-coded policy of this design.
pub const DECIMALS: u8 = 9;

/// The fixed initial supply issued at asset creation, in base units:
/// one hundred million whole tokens at nine decimal places. A hard-coded
/// policy of this design, not configurable.
pub const INITIAL_SUPPLY: u64 = 100_000_000 * 1_000_000_000;

/// The accounts involved in creating the asset: the new mint, its two
/// authorities, the creating principal (who becomes admin), and the token
/// account that receives the initial supply.
#[derive(Clone, Copy, Debug)]
pub struct InitializeToken {
    pub mint: Identity,
    pub mint_authority: Identity,
    pub freeze_authority: Identity,
    pub admin: Identity,
    pub to: Identity,
}

/// An issue (mint) request: the mint, the receiving account, the declared
/// mint authority, and the control state the decision reads.
#[derive(Clone, Copy, Debug)]
pub struct MintTokens {
    pub mint: Identity,
    pub to: Identity,
    pub mint_authority: Identity,
    pub state: State,
}

/// A destroy (burn) request.
#[derive(Clone, Copy, Debug)]
pub struct BurnTokens {
    pub mint: Identity,
    pub from: Identity,
    pub authority: Identity,
    pub state: State,
}

/// A move (transfer) request.
#[derive(Clone, Copy, Debug)]
pub struct TransferTokens {
    pub from: Identity,
    pub to: Identity,
    pub authority: Identity,
    pub state: State,
}

/// A freeze request.
#[derive(Clone, Copy, Debug)]
pub struct FreezeAccountContext {
    pub account: Identity,
    pub mint: Identity,
    pub freeze_authority: Identity,
    pub state: State,
}

/// An unfreeze request.
#[derive(Clone, Copy, Debug)]
pub struct ThawAccountContext {
    pub account: Identity,
    pub mint: Identity,
    pub freeze_authority: Identity,
    pub state: State,
}

/// A pause or unpause request: the caller claiming to be admin, and the
/// control state to read and update.
#[derive(Clone, Copy, Debug)]
pub struct PauseContract {
    pub admin: Identity,
    pub state: State,
}

/// What asset creation decides: the fresh control state (unpaused, admin set
/// from the creating principal) and the single issue of the fixed initial
/// supply to the designated destination.
pub open spec fn initialize_decision(ctx: InitializeToken) -> (State, LedgerAction) {
    (
        State { is_paused: false, admin: ctx.admin },
        LedgerAction::Issue {
            mint: ctx.mint,
            destination: ctx.to,
            authority: ctx.mint_authority,
            amount: INITIAL_SUPPLY,
        },
    )
}

/// What an issue request decides: rejected while paused, otherwise forwarded
/// with exactly the requested accounts and amount.
pub open spec fn mint_decision(ctx: MintTokens, amount: u64) -> Result<LedgerAction, ErrorCode> {
    if ctx.state.is_paused {
        Err(ErrorCode::ContractPaused)
    } else {
        Ok(
            LedgerAction::Issue {
                mint: ctx.mint,
                destination: ctx.to,
                authority: ctx.mint_authority,
                amount: amount,
            },
        )
    }
}

/// What a destroy request decides.
pub open spec fn burn_decision(ctx: BurnTokens, amount: u64) -> Result<LedgerAction, ErrorCode> {
    if ctx.state.is_paused {
        Err(ErrorCode::ContractPaused)
    } else {
        Ok(
            LedgerAction::Destroy {
                mint: ctx.mint,
                source: ctx.from,
                authority: ctx.authority,
                amount: amount,
            },
        )
    }
}

/// What a move request decides.
pub open spec fn transfer_decision(ctx: TransferTokens, amount: u64) -> Result<
    LedgerAction,
    ErrorCode,
> {
    if ctx.state.is_paused {
        Err(ErrorCode::ContractPaused)
    } else {
        Ok(
            LedgerAction::Move {
                source: ctx.from,
                destination: ctx.to,
                authority: ctx.authority,
                amount: amount,
            },
        )
    }
}

/// What a freeze request decides.
pub open spec fn freeze_decision(ctx: FreezeAccountContext) -> Result<LedgerAction, ErrorCode> {
    if ctx.state.is_paused {
        Err(ErrorCode::ContractPaused)
    } else {
        Ok(
            LedgerAction::Freeze {
                account: ctx.account,
                mint: ctx.mint,
                authority: ctx.freeze_authority,
            },
        )
    }
}

/// What an unfreeze request decides.
pub open spec fn thaw_decision(ctx: ThawAccountContext) -> Result<LedgerAction, ErrorCode> {
    if ctx.state.is_paused {
        Err(ErrorCode::ContractPaused)
    } else {
        Ok(
            LedgerAction::Unfreeze {
                account: ctx.account,
                mint: ctx.mint,
                authority: ctx.freeze_authority,
            },
        )
    }
}

/// What a pause request decides: the updated context and the outcome. The
/// admin check is the only check — deliberately not pause-gated, and
/// idempotent: pausing an already paused asset succeeds and changes nothing.
pub open spec fn pause_decision(ctx: PauseContract) -> (PauseContract, Result<(), ErrorCode>) {
    if ctx.admin@ == ctx.state.admin@ {
        (PauseContract { admin: ctx.admin, state: State { is_paused: true, admin: ctx.state.admin } }, Ok(()))
    } else {
        (ctx, Err(ErrorCode::Unauthorized))
    }
}

/// What an unpause request decides; the mirror image of `pause_decision`.
pub open spec fn unpause_decision(ctx: PauseContract) -> (PauseContract, Result<(), ErrorCode>) {
    if ctx.admin@ == ctx.state.admin@ {
        (PauseContract { admin: ctx.admin, state: State { is_paused: false, admin: ctx.state.admin } }, Ok(()))
    } else {
        (ctx, Err(ErrorCode::Unauthorized))
    }
}

/// Creates the asset's control state — unpaused, administered by the creating
/// principal — and emits the one issue of the fixed initial supply that the
/// caller must forward to the ledger atomically with the creation.
pub fn initialize_token(ctx: &InitializeToken) -> (r: (State, LedgerAction))
    requires
        ctx.admin.is_nonzero(),
    ensures
        r == initialize_decision(*ctx),
        r.0.is_paused == false,
        r.0.admin == ctx.admin,
        r.0.wf(),
{
    let state = State::create(ctx.admin);
    let action = LedgerAction::Issue {
        mint: ctx.mint,
        destination: ctx.to,
        authority: ctx.mint_authority,
        amount: INITIAL_SUPPLY,
    };
    (state, action)
}

/// Gates an issue (mint) request on the pause flag.
pub fn mint_tokens(ctx: &MintTokens, amount: u64) -> (r: Result<LedgerAction, ErrorCode>)
    ensures
        r == mint_decision(*ctx, amount),
        r is Err <==> ctx.state.is_paused,
{
    if ctx.state.is_paused {
        return Err(ErrorCode::ContractPaused);
    }
    Ok(
        LedgerAction::Issue {
            mint: ctx.mint,
            destination: ctx.to,
            authority: ctx.mint_authority,
            amount,
        },
    )
}

/// Gates a destroy (burn) request on the pause flag.
pub fn burn_tokens(ctx: &BurnTokens, amount: u64) -> (r: Result<LedgerAction, ErrorCode>)
    ensures
        r == burn_decision(*ctx, amount),
        r is Err <==> ctx.state.is_paused,
{
    if ctx.state.is_paused {
        return Err(ErrorCode::ContractPaused);
    }
    Ok(
        LedgerAction::Destroy {
            mint: ctx.mint,
            source: ctx.from,
            authority: ctx.authority,
            amount,
        },
    )
}

/// Gates a move (transfer) request on the pause flag.
pub fn transfer_tokens(ctx: &TransferTokens, amount: u64) -> (r: Result<LedgerAction, ErrorCode>)
    ensures
        r == transfer_decision(*ctx, amount),
        r is Err <==> ctx.state.is_paused,
{
    if ctx.state.is_paused {
        return Err(ErrorCode::ContractPaused);
    }
    Ok(
        LedgerAction::Move {
            source: ctx.from,
            destination: ctx.to,
            authority: ctx.authority,
            amount,
        },
    )
}

/// Gates a freeze request on the pause flag.
pub fn freeze_account(ctx: &FreezeAccountContext) -> (r: Result<LedgerAction, ErrorCode>)
    ensures
        r == freeze_decision(*ctx),
        r is Err <==> ctx.state.is_paused,
{
    if ctx.state.is_paused {
        return Err(ErrorCode::ContractPaused);
    }
    Ok(
        LedgerAction::Freeze {
            account: ctx.account,
            mint: ctx.mint,
            authority: ctx.freeze_authority,
        },
    )
}

/// Gates an unfreeze request on the pause flag.
pub fn thaw_account(ctx: &ThawAccountContext) -> (r: Result<LedgerAction, ErrorCode>)
    ensures
        r == thaw_decision(*ctx),
        r is Err <==> ctx.state.is_paused,
{
    if ctx.state.is_paused {
        return Err(ErrorCode::ContractPaused);
    }
    Ok(
        LedgerAction::Unfreeze {
            account: ctx.account,
            mint: ctx.mint,
            authority: ctx.freeze_authority,
        },
    )
}

/// Pauses the asset if — and only if — the caller is the admin. On failure
/// the context, and with it the pause flag, is left untouched.
pub fn pause_contract(ctx: &mut PauseContract) -> (r: Result<(), ErrorCode>)
    ensures
        (*final(ctx), r) == pause_decision(*old(ctx)),
        r is Ok <==> old(ctx).admin@ == old(ctx).state.admin@,
        r is Err ==> *final(ctx) == *old(ctx),
        r is Ok ==> final(ctx).state.is_paused,
        final(ctx).state.admin == old(ctx).state.admin,
        final(ctx).admin == old(ctx).admin,
        old(ctx).state.wf() ==> final(ctx).state.wf(),
{
    if !(ctx.admin == ctx.state.admin) {
        return Err(ErrorCode::Unauthorized);
    }
    ctx.state.set_paused(true);
    Ok(())
}

/// Unpauses the asset if — and only if — the caller is the admin. Never
/// itself pause-gated: pausing can never lock the admin out of unpausing.
pub fn unpause_contract(ctx: &mut PauseContract) -> (r: Result<(), ErrorCode>)
    ensures
        (*final(ctx), r) == unpause_decision(*old(ctx)),
        r is Ok <==> old(ctx).admin@ == old(ctx).state.admin@,
        r is Err ==> *final(ctx) == *old(ctx),
        r is Ok ==> !final(ctx).state.is_paused,
        final(ctx).state.admin == old(ctx).state.admin,
        final(ctx).admin == old(ctx).admin,
        old(ctx).state.wf() ==> final(ctx).state.wf(),
{
    if !(ctx.admin == ctx.state.admin) {
        return Err(ErrorCode::Unauthorized);
    }
    ctx.state.set_paused(false);
    Ok(())
}

} // verus!
