use escrow::addr::derive_trade_address;
use escrow::addr::derive_vault_address;
use escrow::addr::CANONICAL_BUMP;
use escrow::Address;
use escrow::CancelTrade;
use escrow::DeleteTrade;
use escrow::EscrowError;
use escrow::ExecuteTrade;
use escrow::Ledger;
use escrow::StartTrade;

const MINT_X: u64 = 1;
const MINT_Y: u64 = 2;

const AUTHOR: Address = Address::Key(100);
const CALLER: Address = Address::Key(200);
const AUTHOR_X: Address = Address::Key(10);
const AUTHOR_Y: Address = Address::Key(11);
const CALLER_X: Address = Address::Key(20);
const CALLER_Y: Address = Address::Key(21);
const BASE_ID: u64 = 7;

/// A ledger where the author holds 100 of X and the caller 50 of Y, with
/// empty accounts on the opposite sides.
fn setup_ledger() -> Ledger {
    let mut l = Ledger::new();
    l.create_token_account(AUTHOR_X, MINT_X, AUTHOR).unwrap();
    l.create_token_account(AUTHOR_Y, MINT_Y, AUTHOR).unwrap();
    l.create_token_account(CALLER_X, MINT_X, CALLER).unwrap();
    l.create_token_account(CALLER_Y, MINT_Y, CALLER).unwrap();
    l.deposit(AUTHOR_X, 100).unwrap();
    l.deposit(CALLER_Y, 50).unwrap();
    l
}

fn start_ctx() -> StartTrade {
    let (trade, _) = derive_trade_address(BASE_ID);
    let (trade_vault, _) = derive_vault_address(trade);
    StartTrade {
        authority: AUTHOR,
        base: Address::Key(BASE_ID),
        mint_offered: MINT_X,
        mint_requested: MINT_Y,
        author_offered_vault: AUTHOR_X,
        author_requested_vault: AUTHOR_Y,
        trade,
        trade_vault,
    }
}

fn execute_ctx() -> ExecuteTrade {
    let ctx = start_ctx();
    ExecuteTrade {
        authority: CALLER,
        base: ctx.base,
        trade: ctx.trade,
        trade_vault: ctx.trade_vault,
        author_requested_vault: AUTHOR_Y,
        executer_offered_vault: CALLER_X,
        executer_requested_vault: CALLER_Y,
    }
}

fn cancel_ctx() -> CancelTrade {
    let ctx = start_ctx();
    CancelTrade {
        authority: AUTHOR,
        base: ctx.base,
        trade: ctx.trade,
        trade_vault: ctx.trade_vault,
        author_offered_vault: AUTHOR_X,
    }
}

fn delete_ctx() -> DeleteTrade {
    let ctx = start_ctx();
    DeleteTrade {
        authority: AUTHOR,
        base: ctx.base,
        trade: ctx.trade,
        trade_vault: ctx.trade_vault,
    }
}

#[test]
fn start_trade_locks_offered_amount() {
    let mut l = setup_ledger();
    let ctx = start_ctx();
    assert_eq!(l.start_trade(ctx, 100, 50), Ok(()));
    assert_eq!(l.token_balance(ctx.trade_vault), Some(100));
    assert_eq!(l.token_balance(AUTHOR_X), Some(0));
    let t = l.get_trade(ctx.trade).unwrap();
    assert!(!t.executed);
    assert_eq!(t.author, AUTHOR);
    assert_eq!(t.amount_offered, 100);
    assert_eq!(t.amount_requested, 50);
    assert_eq!(t.mint_offered, MINT_X);
    assert_eq!(t.mint_requested, MINT_Y);
    assert_eq!(t.author_offered_vault, AUTHOR_X);
    assert_eq!(t.author_requested_vault, AUTHOR_Y);
    assert_eq!(t.bump, CANONICAL_BUMP);
    assert_eq!(t.vault_bump, CANONICAL_BUMP);
    let vault = l.get_token_account(ctx.trade_vault).unwrap();
    assert_eq!(vault.mint, MINT_X);
    assert_eq!(vault.owner, ctx.trade);
}

#[test]
fn start_trade_rejects_equal_asset_types() {
    let mut l = setup_ledger();
    let mut ctx = start_ctx();
    ctx.mint_requested = MINT_X;
    ctx.author_requested_vault = AUTHOR_X;
    assert_eq!(l.start_trade(ctx, 100, 50), Err(EscrowError::ConstraintViolation));
    assert_eq!(l.get_trade(ctx.trade), None);
    assert_eq!(l.token_balance(ctx.trade_vault), None);
    assert_eq!(l.token_balance(AUTHOR_X), Some(100));
}

#[test]
fn start_trade_rejects_duplicate_base() {
    let mut l = setup_ledger();
    let ctx = start_ctx();
    assert_eq!(l.start_trade(ctx, 40, 20), Ok(()));
    assert_eq!(l.start_trade(ctx, 10, 5), Err(EscrowError::DuplicateCreationError));
    assert_eq!(l.token_balance(ctx.trade_vault), Some(40));
    assert_eq!(l.token_balance(AUTHOR_X), Some(60));
}

#[test]
fn start_trade_rejects_insufficient_funds() {
    let mut l = setup_ledger();
    let ctx = start_ctx();
    assert_eq!(l.start_trade(ctx, 150, 50), Err(EscrowError::InsufficientFunds));
    assert_eq!(l.get_trade(ctx.trade), None);
    assert_eq!(l.token_balance(AUTHOR_X), Some(100));
}

#[test]
fn start_trade_rejects_wrong_derived_addresses() {
    let mut l = setup_ledger();
    let mut ctx = start_ctx();
    ctx.trade = Address::TradeRecord(BASE_ID + 1);
    assert_eq!(l.start_trade(ctx, 100, 50), Err(EscrowError::ConstraintViolation));
    let mut ctx2 = start_ctx();
    ctx2.trade_vault = Address::TradeVault(BASE_ID + 1);
    assert_eq!(l.start_trade(ctx2, 100, 50), Err(EscrowError::ConstraintViolation));
    assert_eq!(l.get_trade(ctx2.trade), None);
}

#[test]
fn start_trade_rejects_foreign_offered_vault() {
    let mut l = setup_ledger();
    let mut ctx = start_ctx();
    ctx.author_offered_vault = CALLER_X;
    assert_eq!(l.start_trade(ctx, 100, 50), Err(EscrowError::ConstraintViolation));
    assert_eq!(l.get_trade(ctx.trade), None);
}

#[test]
fn start_trade_rejects_derived_signer() {
    let mut l = setup_ledger();
    let mut ctx = start_ctx();
    ctx.authority = ctx.trade;
    assert_eq!(l.start_trade(ctx, 100, 50), Err(EscrowError::AuthorizationError));
}

#[test]
fn execute_trade_completes_swap() {
    let mut l = setup_ledger();
    assert_eq!(l.start_trade(start_ctx(), 100, 50), Ok(()));
    let ctx = execute_ctx();
    assert_eq!(l.execute_trade(ctx), Ok(()));
    assert_eq!(l.token_balance(AUTHOR_Y), Some(50));
    assert_eq!(l.token_balance(CALLER_X), Some(100));
    assert_eq!(l.token_balance(CALLER_Y), Some(0));
    assert_eq!(l.token_balance(ctx.trade_vault), Some(0));
    assert_eq!(l.token_balance(AUTHOR_X), Some(0));
    assert!(l.get_trade(ctx.trade).unwrap().executed);
}

#[test]
fn execute_trade_rejects_second_attempt() {
    let mut l = setup_ledger();
    assert_eq!(l.start_trade(start_ctx(), 100, 50), Ok(()));
    let ctx = execute_ctx();
    assert_eq!(l.execute_trade(ctx), Ok(()));
    assert_eq!(l.execute_trade(ctx), Err(EscrowError::InvalidStateError));
    assert_eq!(l.token_balance(AUTHOR_Y), Some(50));
    assert_eq!(l.token_balance(CALLER_X), Some(100));
    assert_eq!(l.token_balance(CALLER_Y), Some(0));
    assert_eq!(l.token_balance(ctx.trade_vault), Some(0));
}

#[test]
fn execute_trade_rejects_missing_trade() {
    let mut l = setup_ledger();
    assert_eq!(l.execute_trade(execute_ctx()), Err(EscrowError::InvalidStateError));
}

#[test]
fn execute_trade_rejects_unrecorded_author_vault() {
    let mut l = setup_ledger();
    assert_eq!(l.start_trade(start_ctx(), 100, 50), Ok(()));
    let mut ctx = execute_ctx();
    ctx.author_requested_vault = CALLER_Y;
    assert_eq!(l.execute_trade(ctx), Err(EscrowError::ConstraintViolation));
    assert_eq!(l.token_balance(AUTHOR_Y), Some(0));
}

#[test]
fn execute_trade_rejects_underfunded_caller() {
    let mut l = setup_ledger();
    assert_eq!(l.start_trade(start_ctx(), 100, 80), Ok(()));
    let ctx = execute_ctx();
    assert_eq!(l.execute_trade(ctx), Err(EscrowError::InsufficientFunds));
    assert_eq!(l.token_balance(ctx.trade_vault), Some(100));
    assert_eq!(l.token_balance(CALLER_Y), Some(50));
}

#[test]
fn execute_trade_rejects_overflowing_requested_leg() {
    let mut l = setup_ledger();
    l.deposit(AUTHOR_Y, u64::MAX).unwrap();
    assert_eq!(l.start_trade(start_ctx(), 100, 50), Ok(()));
    assert_eq!(l.execute_trade(execute_ctx()), Err(EscrowError::BalanceOverflow));
    assert_eq!(l.token_balance(CALLER_Y), Some(50));
}

#[test]
fn author_can_execute_own_trade() {
    let mut l = setup_ledger();
    l.deposit(AUTHOR_Y, 60).unwrap();
    assert_eq!(l.start_trade(start_ctx(), 100, 50), Ok(()));
    let base = start_ctx();
    let ctx = ExecuteTrade {
        authority: AUTHOR,
        base: base.base,
        trade: base.trade,
        trade_vault: base.trade_vault,
        author_requested_vault: AUTHOR_Y,
        executer_offered_vault: AUTHOR_X,
        executer_requested_vault: AUTHOR_Y,
    };
    assert_eq!(l.execute_trade(ctx), Ok(()));
    assert_eq!(l.token_balance(AUTHOR_X), Some(100));
    assert_eq!(l.token_balance(AUTHOR_Y), Some(60));
    assert_eq!(l.token_balance(ctx.trade_vault), Some(0));
    assert!(l.get_trade(ctx.trade).unwrap().executed);
}

#[test]
fn cancel_trade_restores_author() {
    let mut l = setup_ledger();
    assert_eq!(l.start_trade(start_ctx(), 100, 50), Ok(()));
    let ctx = cancel_ctx();
    assert_eq!(l.cancel_trade(ctx), Ok(()));
    assert_eq!(l.token_balance(AUTHOR_X), Some(100));
    assert_eq!(l.get_trade(ctx.trade), None);
    assert_eq!(l.token_balance(ctx.trade_vault), None);
    assert_eq!(l.get_token_account(ctx.trade_vault), None);
}

#[test]
fn cancel_trade_rejects_after_execution() {
    let mut l = setup_ledger();
    assert_eq!(l.start_trade(start_ctx(), 100, 50), Ok(()));
    assert_eq!(l.execute_trade(execute_ctx()), Ok(()));
    assert_eq!(l.cancel_trade(cancel_ctx()), Err(EscrowError::InvalidStateError));
    assert!(l.get_trade(cancel_ctx().trade).is_some());
}

#[test]
fn cancel_trade_rejects_wrong_signer() {
    let mut l = setup_ledger();
    assert_eq!(l.start_trade(start_ctx(), 100, 50), Ok(()));
    let mut ctx = cancel_ctx();
    ctx.authority = CALLER;
    assert_eq!(l.cancel_trade(ctx), Err(EscrowError::AuthorizationError));
    assert_eq!(l.token_balance(ctx.trade_vault), Some(100));
}

#[test]
fn cancel_trade_rejects_missing_trade() {
    let mut l = setup_ledger();
    assert_eq!(l.cancel_trade(cancel_ctx()), Err(EscrowError::InvalidStateError));
}

#[test]
fn delete_trade_rejects_pending() {
    let mut l = setup_ledger();
    assert_eq!(l.start_trade(start_ctx(), 100, 50), Ok(()));
    assert_eq!(l.delete_trade(delete_ctx()), Err(EscrowError::InvalidStateError));
    assert_eq!(l.token_balance(delete_ctx().trade_vault), Some(100));
}

#[test]
fn delete_trade_reclaims_after_execution() {
    let mut l = setup_ledger();
    assert_eq!(l.start_trade(start_ctx(), 100, 50), Ok(()));
    assert_eq!(l.execute_trade(execute_ctx()), Ok(()));
    let ctx = delete_ctx();
    assert_eq!(l.delete_trade(ctx), Ok(()));
    assert_eq!(l.get_trade(ctx.trade), None);
    assert_eq!(l.get_token_account(ctx.trade_vault), None);
    assert_eq!(l.token_balance(AUTHOR_Y), Some(50));
    assert_eq!(l.token_balance(CALLER_X), Some(100));
}

#[test]
fn delete_trade_rejects_wrong_signer() {
    let mut l = setup_ledger();
    assert_eq!(l.start_trade(start_ctx(), 100, 50), Ok(()));
    assert_eq!(l.execute_trade(execute_ctx()), Ok(()));
    let mut ctx = delete_ctx();
    ctx.authority = CALLER;
    assert_eq!(l.delete_trade(ctx), Err(EscrowError::AuthorizationError));
}

#[test]
fn derivation_is_deterministic_and_unique() {
    let (t1, b1) = derive_trade_address(BASE_ID);
    let (t2, b2) = derive_trade_address(BASE_ID);
    assert_eq!(t1, t2);
    assert_eq!(b1, b2);
    assert_eq!(b1, CANONICAL_BUMP);
    let (t3, _) = derive_trade_address(BASE_ID + 1);
    assert_ne!(t1, t3);
    let (v1, _) = derive_vault_address(t1);
    let (v2, _) = derive_vault_address(t2);
    let (v3, _) = derive_vault_address(t3);
    assert_eq!(v1, v2);
    assert_ne!(v1, v3);
    assert_ne!(t1, Address::Key(BASE_ID));
    assert_ne!(v1, Address::Key(BASE_ID));
    assert_ne!(v1, t1);
}

#[test]
fn create_token_account_rejects_derived_and_taken_addresses() {
    let mut l = Ledger::new();
    assert_eq!(
        l.create_token_account(Address::TradeVault(9), MINT_X, AUTHOR),
        Err(EscrowError::ConstraintViolation)
    );
    assert_eq!(l.create_token_account(AUTHOR_X, MINT_X, AUTHOR), Ok(()));
    assert_eq!(
        l.create_token_account(AUTHOR_X, MINT_Y, AUTHOR),
        Err(EscrowError::DuplicateCreationError)
    );
}

#[test]
fn cancel_trade_rejects_overflowing_return() {
    let mut l = setup_ledger();
    assert_eq!(l.start_trade(start_ctx(), 100, 50), Ok(()));
    l.deposit(AUTHOR_X, u64::MAX - 50).unwrap();
    assert_eq!(l.cancel_trade(cancel_ctx()), Err(EscrowError::BalanceOverflow));
    assert_eq!(l.token_balance(cancel_ctx().trade_vault), Some(100));
    assert!(l.get_trade(cancel_ctx().trade).is_some());
}

#[test]
fn start_trade_rejects_derived_base() {
    let mut l = setup_ledger();
    let mut ctx = start_ctx();
    ctx.base = Address::TradeRecord(BASE_ID);
    assert_eq!(l.start_trade(ctx, 100, 50), Err(EscrowError::ConstraintViolation));
}

#[test]
fn execute_trade_rejects_mismatched_trade_address() {
    let mut l = setup_ledger();
    assert_eq!(l.start_trade(start_ctx(), 100, 50), Ok(()));
    let mut ctx = execute_ctx();
    ctx.base = Address::Key(BASE_ID + 1);
    assert_eq!(l.execute_trade(ctx), Err(EscrowError::ConstraintViolation));
    assert_eq!(l.token_balance(ctx.trade_vault), Some(100));
}

#[test]
fn deposit_rejects_overflow_and_missing_account() {
    let mut l = Ledger::new();
    assert_eq!(l.deposit(AUTHOR_X, 1), Err(EscrowError::ConstraintViolation));
    l.create_token_account(AUTHOR_X, MINT_X, AUTHOR).unwrap();
    assert_eq!(l.deposit(AUTHOR_X, u64::MAX), Ok(()));
    assert_eq!(l.deposit(AUTHOR_X, 1), Err(EscrowError::BalanceOverflow));
    assert_eq!(l.token_balance(AUTHOR_X), Some(u64::MAX));
}
