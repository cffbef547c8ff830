use my_token_project::gate::BurnTokens;
use my_token_project::gate::ErrorCode;
use my_token_project::gate::FreezeAccountContext;
use my_token_project::gate::InitializeToken;
use my_token_project::gate::LedgerAction;
use my_token_project::gate::MintTokens;
use my_token_project::gate::PauseContract;
use my_token_project::gate::ThawAccountContext;
use my_token_project::gate::TransferTokens;
use my_token_project::gate::INITIAL_SUPPLY;
use my_token_project::gate::burn_tokens;
use my_token_project::gate::freeze_account;
use my_token_project::gate::initialize_token;
use my_token_project::gate::mint_tokens;
use my_token_project::gate::pause_contract;
use my_token_project::gate::thaw_account;
use my_token_project::gate::transfer_tokens;
use my_token_project::gate::unpause_contract;
use my_token_project::identity::Identity;
use my_token_project::state::State;

fn id(tag: u8) -> Identity {
    let mut bytes = [0u8; 32];
    bytes[0] = tag;
    bytes[31] = tag.wrapping_mul(3);
    Identity::new(bytes)
}

#[test]
fn initial_supply_is_one_hundred_million_tokens_at_nine_decimals() {
    assert_eq!(INITIAL_SUPPLY, 100_000_000_000_000_000u64);
    assert_eq!(my_token_project::gate::DECIMALS, 9);
    assert_eq!(INITIAL_SUPPLY, 100_000_000 * 10u64.pow(u32::from(my_token_project::gate::DECIMALS)));
}

#[test]
fn initialize_starts_unpaused_with_creator_as_admin() {
    let ctx = InitializeToken {
        mint: id(1),
        mint_authority: id(2),
        freeze_authority: id(3),
        admin: id(4),
        to: id(5),
    };
    let (state, action) = initialize_token(&ctx);
    assert!(!state.is_paused);
    assert_eq!(state.admin, id(4));
    match action {
        LedgerAction::Issue { mint, destination, authority, amount } => {
            assert_eq!(mint, id(1));
            assert_eq!(destination, id(5));
            assert_eq!(authority, id(2));
            assert_eq!(amount, INITIAL_SUPPLY);
        }
        _ => panic!("initialization must issue the initial supply"),
    }
}

#[test]
fn paused_mint_is_rejected() {
    let state = State { is_paused: true, admin: id(9) };
    let ctx = MintTokens { mint: id(1), to: id(5), mint_authority: id(2), state };
    assert_eq!(mint_tokens(&ctx, 42).unwrap_err(), ErrorCode::ContractPaused);
}

#[test]
fn paused_burn_is_rejected() {
    let state = State { is_paused: true, admin: id(9) };
    let ctx = BurnTokens { mint: id(1), from: id(5), authority: id(2), state };
    assert_eq!(burn_tokens(&ctx, 42).unwrap_err(), ErrorCode::ContractPaused);
}

#[test]
fn paused_transfer_is_rejected() {
    let state = State { is_paused: true, admin: id(9) };
    let ctx = TransferTokens { from: id(5), to: id(6), authority: id(2), state };
    assert_eq!(transfer_tokens(&ctx, 42).unwrap_err(), ErrorCode::ContractPaused);
}

#[test]
fn paused_freeze_is_rejected() {
    let state = State { is_paused: true, admin: id(9) };
    let ctx = FreezeAccountContext { account: id(5), mint: id(1), freeze_authority: id(3), state };
    assert_eq!(freeze_account(&ctx).unwrap_err(), ErrorCode::ContractPaused);
}

#[test]
fn paused_thaw_is_rejected() {
    let state = State { is_paused: true, admin: id(9) };
    let ctx = ThawAccountContext { account: id(5), mint: id(1), freeze_authority: id(3), state };
    assert_eq!(thaw_account(&ctx).unwrap_err(), ErrorCode::ContractPaused);
}

#[test]
fn active_mint_forwards_exact_request() {
    let state = State { is_paused: false, admin: id(9) };
    let ctx = MintTokens { mint: id(1), to: id(5), mint_authority: id(2), state };
    match mint_tokens(&ctx, 42).unwrap() {
        LedgerAction::Issue { mint, destination, authority, amount } => {
            assert_eq!(mint, id(1));
            assert_eq!(destination, id(5));
            assert_eq!(authority, id(2));
            assert_eq!(amount, 42);
        }
        _ => panic!("mint must forward an issue"),
    }
}

#[test]
fn active_burn_forwards_exact_request() {
    let state = State { is_paused: false, admin: id(9) };
    let ctx = BurnTokens { mint: id(1), from: id(5), authority: id(2), state };
    match burn_tokens(&ctx, 7).unwrap() {
        LedgerAction::Destroy { mint, source, authority, amount } => {
            assert_eq!(mint, id(1));
            assert_eq!(source, id(5));
            assert_eq!(authority, id(2));
            assert_eq!(amount, 7);
        }
        _ => panic!("burn must forward a destroy"),
    }
}

#[test]
fn active_transfer_forwards_exact_request() {
    let state = State { is_paused: false, admin: id(9) };
    let ctx = TransferTokens { from: id(5), to: id(6), authority: id(2), state };
    match transfer_tokens(&ctx, u64::MAX).unwrap() {
        LedgerAction::Move { source, destination, authority, amount } => {
            assert_eq!(source, id(5));
            assert_eq!(destination, id(6));
            assert_eq!(authority, id(2));
            assert_eq!(amount, u64::MAX);
        }
        _ => panic!("transfer must forward a move"),
    }
}

#[test]
fn active_freeze_forwards_exact_request() {
    let state = State { is_paused: false, admin: id(9) };
    let ctx = FreezeAccountContext { account: id(5), mint: id(1), freeze_authority: id(3), state };
    match freeze_account(&ctx).unwrap() {
        LedgerAction::Freeze { account, mint, authority } => {
            assert_eq!(account, id(5));
            assert_eq!(mint, id(1));
            assert_eq!(authority, id(3));
        }
        _ => panic!("freeze must forward a freeze"),
    }
}

#[test]
fn active_thaw_forwards_exact_request() {
    let state = State { is_paused: false, admin: id(9) };
    let ctx = ThawAccountContext { account: id(5), mint: id(1), freeze_authority: id(3), state };
    match thaw_account(&ctx).unwrap() {
        LedgerAction::Unfreeze { account, mint, authority } => {
            assert_eq!(account, id(5));
            assert_eq!(mint, id(1));
            assert_eq!(authority, id(3));
        }
        _ => panic!("thaw must forward an unfreeze"),
    }
}

#[test]
fn admin_pause_then_unpause_round_trips() {
    let admin = id(4);
    let state = State { is_paused: false, admin };
    let mut ctx = PauseContract { admin, state };
    assert!(pause_contract(&mut ctx).is_ok());
    assert!(ctx.state.is_paused);
    assert!(unpause_contract(&mut ctx).is_ok());
    assert!(!ctx.state.is_paused);
    assert_eq!(ctx.state.admin, admin);
    assert_eq!(ctx.admin, admin);
}

#[test]
fn non_admin_pause_is_rejected_and_changes_nothing() {
    let state = State { is_paused: false, admin: id(4) };
    let mut ctx = PauseContract { admin: id(7), state };
    assert_eq!(pause_contract(&mut ctx).unwrap_err(), ErrorCode::Unauthorized);
    assert!(!ctx.state.is_paused);
    assert_eq!(ctx.state.admin, id(4));
}

#[test]
fn non_admin_unpause_is_rejected_and_changes_nothing() {
    let state = State { is_paused: true, admin: id(4) };
    let mut ctx = PauseContract { admin: id(7), state };
    assert_eq!(unpause_contract(&mut ctx).unwrap_err(), ErrorCode::Unauthorized);
    assert!(ctx.state.is_paused);
    assert_eq!(ctx.state.admin, id(4));
}

#[test]
fn non_admin_pause_is_rejected_while_paused_too() {
    let state = State { is_paused: true, admin: id(4) };
    let mut ctx = PauseContract { admin: id(7), state };
    assert_eq!(pause_contract(&mut ctx).unwrap_err(), ErrorCode::Unauthorized);
    assert!(ctx.state.is_paused);
}

#[test]
fn double_pause_is_idempotent() {
    let admin = id(4);
    let mut ctx = PauseContract { admin, state: State { is_paused: false, admin } };
    assert!(pause_contract(&mut ctx).is_ok());
    assert!(pause_contract(&mut ctx).is_ok());
    assert!(ctx.state.is_paused);
    assert_eq!(ctx.state.admin, admin);
}

#[test]
fn double_unpause_is_idempotent() {
    let admin = id(4);
    let mut ctx = PauseContract { admin, state: State { is_paused: true, admin } };
    assert!(unpause_contract(&mut ctx).is_ok());
    assert!(unpause_contract(&mut ctx).is_ok());
    assert!(!ctx.state.is_paused);
    assert_eq!(ctx.state.admin, admin);
}

#[test]
fn paused_asset_reports_paused_before_any_authority_question() {
    // Admin creates the asset, pauses it; a principal who is neither the
    // admin nor any declared authority then attempts a move. The library
    // answers ContractPaused: the pause check runs before anything would
    // ever look at the mover's authority.
    let admin = id(4);
    let init = InitializeToken {
        mint: id(1),
        mint_authority: id(2),
        freeze_authority: id(3),
        admin,
        to: id(5),
    };
    let (state, _) = initialize_token(&init);
    let mut pause_ctx = PauseContract { admin, state };
    assert!(pause_contract(&mut pause_ctx).is_ok());
    let stranger = id(8);
    let ctx = TransferTokens { from: id(5), to: id(6), authority: stranger, state: pause_ctx.state };
    assert_eq!(transfer_tokens(&ctx, 1).unwrap_err(), ErrorCode::ContractPaused);
}
