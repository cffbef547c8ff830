//! Laws of the authorization logic: properties that hold across operations,
//! stated over the decision functions of [`crate::gate`] and proved once and
//! for all.

use crate::gate::BurnTokens;
use crate::gate::ErrorCode;
use crate::gate::FreezeAccountContext;
use crate::gate::LedgerAction;
use crate::gate::MintTokens;
use crate::gate::PauseContract;
use crate::gate::ThawAccountContext;
use crate::gate::TransferTokens;
use crate::gate::burn_decision;
use crate::gate::freeze_decision;
use crate::gate::mint_decision;
use crate::gate::pause_decision;
use crate::gate::thaw_decision;
use crate::gate::transfer_decision;
use crate::gate::unpause_decision;
use vstd::prelude::*;

verus! {

/// While the asset is paused, every operation of the asset-mutating family —
/// issue, destroy, move, freeze, unfreeze — is rejected with `ContractPaused`,
/// whatever its accounts, authority or amount: no request reaches the ledger,
/// so the ledger state is unchanged.
pub proof fn lemma_paused_blocks_asset_ops(
    mt: MintTokens,
    bt: BurnTokens,
    tt: TransferTokens,
    fc: FreezeAccountContext,
    tc: ThawAccountContext,
    amount: u64,
)
    requires
        mt.state.is_paused,
        bt.state.is_paused,
        tt.state.is_paused,
        fc.state.is_paused,
        tc.state.is_paused,
    ensures
        mint_decision(mt, amount) == Err::<LedgerAction, ErrorCode>(ErrorCode::ContractPaused),
        burn_decision(bt, amount) == Err::<LedgerAction, ErrorCode>(ErrorCode::ContractPaused),
        transfer_decision(tt, amount) == Err::<LedgerAction, ErrorCode>(ErrorCode::ContractPaused),
        freeze_decision(fc) == Err::<LedgerAction, ErrorCode>(ErrorCode::ContractPaused),
        thaw_decision(tc) == Err::<LedgerAction, ErrorCode>(ErrorCode::ContractPaused),
{
}

/// While the asset is not paused, every operation of the asset-mutating
/// family succeeds, and what it forwards to the ledger is exactly the
/// requested operation: the same accounts, the same declared authority, the
/// same amount, unmodified.
pub proof fn lemma_active_forwards_exact_request(
    mt: MintTokens,
    bt: BurnTokens,
    tt: TransferTokens,
    fc: FreezeAccountContext,
    tc: ThawAccountContext,
    amount: u64,
)
    requires
        !mt.state.is_paused,
        !bt.state.is_paused,
        !tt.state.is_paused,
        !fc.state.is_paused,
        !tc.state.is_paused,
    ensures
        mint_decision(mt, amount) == Ok::<LedgerAction, ErrorCode>(
            (LedgerAction::Issue {
                mint: mt.mint,
                destination: mt.to,
                authority: mt.mint_authority,
                amount: amount,
            }),
        ),
        burn_decision(bt, amount) == Ok::<LedgerAction, ErrorCode>(
            (LedgerAction::Destroy {
                mint: bt.mint,
                source: bt.from,
                authority: bt.authority,
                amount: amount,
            }),
        ),
        transfer_decision(tt, amount) == Ok::<LedgerAction, ErrorCode>(
            (LedgerAction::Move {
                source: tt.from,
                destination: tt.to,
                authority: tt.authority,
                amount: amount,
            }),
        ),
        freeze_decision(fc) == Ok::<LedgerAction, ErrorCode>(
            (LedgerAction::Freeze {
                account: fc.account,
                mint: fc.mint,
                authority: fc.freeze_authority,
            }),
        ),
        thaw_decision(tc) == Ok::<LedgerAction, ErrorCode>(
            (LedgerAction::Unfreeze {
                account: tc.account,
                mint: tc.mint,
                authority: tc.freeze_authority,
            }),
        ),
{
}

/// A pause followed immediately by an unpause from the same admin succeeds in
/// both steps and returns the control state to unpaused with no other field
/// changed — the flag round-trips, whatever it was before.
pub proof fn lemma_pause_unpause_round_trip(ctx: PauseContract)
    requires
        ctx.admin@ == ctx.state.admin@,
    ensures
        pause_decision(ctx).1 == Ok::<(), ErrorCode>(()),
        unpause_decision(pause_decision(ctx).0).1 == Ok::<(), ErrorCode>(()),
        !unpause_decision(pause_decision(ctx).0).0.state.is_paused,
        unpause_decision(pause_decision(ctx).0).0.state.admin == ctx.state.admin,
        unpause_decision(pause_decision(ctx).0).0.admin == ctx.admin,
{
}

/// A caller other than the admin can neither pause nor unpause: both requests
/// return `Unauthorized` and leave the context — in particular the pause flag
/// — exactly as it was, whatever the current pause state.
pub proof fn lemma_non_admin_rejected(ctx: PauseContract)
    requires
        ctx.admin@ != ctx.state.admin@,
    ensures
        pause_decision(ctx) == ((ctx, Err::<(), ErrorCode>(ErrorCode::Unauthorized))),
        unpause_decision(ctx) == ((ctx, Err::<(), ErrorCode>(ErrorCode::Unauthorized))),
{
}

/// Pausing an already paused asset succeeds — no error — and changes nothing;
/// likewise unpausing an already unpaused asset. The two admin operations are
/// idempotent.
pub proof fn lemma_pause_unpause_idempotent(ctx: PauseContract)
    requires
        ctx.admin@ == ctx.state.admin@,
    ensures
        ctx.state.is_paused ==> pause_decision(ctx) == ((ctx, Ok::<(), ErrorCode>(()))),
        !ctx.state.is_paused ==> unpause_decision(ctx) == ((ctx, Ok::<(), ErrorCode>(()))),
{
}

/// No pause or unpause decision ever changes the admin identity: it is set
/// at creation and is immutable thereafter (there is no rotation path).
pub proof fn lemma_admin_immutable(ctx: PauseContract)
    ensures
        pause_decision(ctx).0.state.admin == ctx.state.admin,
        unpause_decision(ctx).0.state.admin == ctx.state.admin,
        pause_decision(ctx).0.admin == ctx.admin,
        unpause_decision(ctx).0.admin == ctx.admin,
{
}

} // verus!
