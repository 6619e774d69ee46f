use kagemusha::authority::{
    derive_address,
    position_seed_list,
    strategy_seed_list,
    vault_sol_seed_list,
};
use kagemusha::deposit::Deposit;
use kagemusha::deposit_sol::DepositSol;
use kagemusha::errors::KagemushaError;
use kagemusha::initialize::InitializeStrategy;
use kagemusha::state::{Key, StrategyVault, TokenAccount, UserPosition};
use kagemusha::withdraw::Withdraw;
use kagemusha::withdraw_sol::WithdrawSol;
use kagemusha::{deposit, deposit_sol, initialize_strategy, withdraw, withdraw_sol};

fn program() -> Key {
    Key::new([7u8; 32])
}

fn owner() -> Key {
    Key::new([1u8; 32])
}

fn mint() -> Key {
    Key::new([40u8; 32])
}

fn new_vault() -> (Key, StrategyVault) {
    let seeds = strategy_seed_list(&owner(), b"alpha");
    let (key, _) = derive_address(&seeds, &program()).unwrap();
    let mut ctx = InitializeStrategy { program_id: program(), strategy_key: key, strategy: None, owner: owner(), now: 100 };
    initialize_strategy(&mut ctx, "alpha".to_string(), 0, vec![6000, 4000]).unwrap();
    (key, ctx.strategy.unwrap())
}

fn position_key(strategy: &Key, user: &Key) -> Key {
    derive_address(&position_seed_list(strategy, user), &program()).unwrap().0
}

fn vault_sol_key(strategy: &Key) -> Key {
    derive_address(&vault_sol_seed_list(strategy), &program()).unwrap().0
}

fn deposit_ctx(user: Key) -> Deposit {
    let (key, vault) = new_vault();
    Deposit {
        program_id: program(),
        strategy_key: key,
        strategy: vault,
        position_key: position_key(&key, &user),
        position: None,
        user,
        user_token_account: Key::new([20u8; 32]),
        vault_token_account: TokenAccount { key: Key::new([21u8; 32]), mint: mint(), owner: key, amount: 0 },
        now: 200,
    }
}

fn withdraw_ctx(d: &Deposit, custody: u64) -> Withdraw {
    Withdraw {
        program_id: program(),
        strategy_key: d.strategy_key,
        strategy: d.strategy,
        position_key: d.position_key,
        position: d.position,
        owner: d.user,
        vault_token_account: TokenAccount {
            key: d.vault_token_account.key,
            mint: mint(),
            owner: d.strategy_key,
            amount: custody,
        },
        user_token_account: d.user_token_account,
        strategy_mint: mint(),
    }
}

fn sol_ctx(user: Key) -> DepositSol {
    let (key, vault) = new_vault();
    DepositSol {
        program_id: program(),
        strategy_key: key,
        strategy: vault,
        position_key: position_key(&key, &user),
        position: None,
        user,
        vault_sol: vault_sol_key(&key),
        now: 300,
    }
}

fn withdraw_sol_ctx(d: &DepositSol) -> WithdrawSol {
    WithdrawSol {
        program_id: program(),
        strategy_key: d.strategy_key,
        strategy: d.strategy,
        position_key: d.position_key,
        position: d.position,
        user: d.user,
        vault_sol: d.vault_sol,
    }
}

#[test]
fn deposit_creates_position_and_credits_exactly() {
    let mut ctx = deposit_ctx(Key::new([5u8; 32]));
    let t = deposit(&mut ctx, 1_000).unwrap();
    assert_eq!(ctx.strategy.tvl, 1_000);
    let p: UserPosition = ctx.position.unwrap();
    assert_eq!(p.lp_shares, 1_000);
    assert_eq!(p.entry_value, 1_000);
    assert_eq!(p.deposit_time, 200);
    assert_eq!(p.vault, ctx.strategy_key);
    assert_eq!(p.user, Key::new([5u8; 32]));
    assert_eq!(t.from, Key::new([20u8; 32]));
    assert_eq!(t.to, Key::new([21u8; 32]));
    assert_eq!(t.authority, Key::new([5u8; 32]));
    assert_eq!(t.amount, 1_000);
    assert!(t.signer_seeds.is_empty());
}

#[test]
fn second_deposit_accumulates_and_overwrites_time() {
    let mut ctx = deposit_ctx(Key::new([5u8; 32]));
    deposit(&mut ctx, 1_000).unwrap();
    ctx.now = 250;
    deposit(&mut ctx, 500).unwrap();
    let p = ctx.position.unwrap();
    assert_eq!(p.lp_shares, 1_500);
    assert_eq!(p.entry_value, 1_500);
    assert_eq!(p.deposit_time, 250);
    assert_eq!(ctx.strategy.tvl, 1_500);
}

#[test]
fn deposit_into_inactive_vault_changes_nothing() {
    let mut ctx = deposit_ctx(Key::new([5u8; 32]));
    ctx.strategy.is_active = false;
    let r = deposit(&mut ctx, 1_000);
    assert_eq!(r.unwrap_err(), KagemushaError::StrategyInactive);
    assert_eq!(ctx.strategy.tvl, 0);
    assert!(ctx.position.is_none());
}

#[test]
fn deposit_of_zero_fails() {
    let mut ctx = deposit_ctx(Key::new([5u8; 32]));
    assert_eq!(deposit(&mut ctx, 0).unwrap_err(), KagemushaError::InsufficientFunds);
}

#[test]
fn deposit_overflow_fails() {
    let mut ctx = deposit_ctx(Key::new([5u8; 32]));
    ctx.strategy.tvl = u64::MAX - 10;
    assert_eq!(deposit(&mut ctx, 11).unwrap_err(), KagemushaError::MathOverflow);
    assert_eq!(ctx.strategy.tvl, u64::MAX - 10);
    assert!(ctx.position.is_none());
    assert!(deposit(&mut ctx, 10).is_ok());
    assert_eq!(ctx.strategy.tvl, u64::MAX);
}

#[test]
fn deposit_to_wrong_position_address_fails() {
    let mut ctx = deposit_ctx(Key::new([5u8; 32]));
    ctx.position_key = Key::new([6u8; 32]);
    assert_eq!(deposit(&mut ctx, 1).unwrap_err(), KagemushaError::ConstraintSeeds);
}

#[test]
fn withdraw_retires_position_and_debits_tvl() {
    let mut d = deposit_ctx(owner());
    deposit(&mut d, 1_000).unwrap();
    let mut w = withdraw_ctx(&d, 1_000);
    let t = withdraw(&mut w, 400).unwrap();
    assert_eq!(w.strategy.tvl, 600);
    assert!(w.position.is_none());
    assert_eq!(t.from, Key::new([21u8; 32]));
    assert_eq!(t.to, Key::new([20u8; 32]));
    assert_eq!(t.authority, d.strategy_key);
    assert_eq!(t.amount, 400);
    assert_eq!(t.signer_seeds.len(), 4);
    assert_eq!(t.signer_seeds[0], b"strategy".to_vec());
    assert_eq!(t.signer_seeds[1], owner().bytes.to_vec());
    assert_eq!(t.signer_seeds[2], b"alpha".to_vec());
    assert_eq!(t.signer_seeds[3], vec![d.strategy.bump]);
}

#[test]
fn withdraw_twice_fails_at_missing_record() {
    let mut d = deposit_ctx(owner());
    deposit(&mut d, 1_000).unwrap();
    let mut w = withdraw_ctx(&d, 1_000);
    withdraw(&mut w, 100).unwrap();
    let r = withdraw(&mut w, 100);
    assert_eq!(r.unwrap_err(), KagemushaError::AccountNotInitialized);
    assert_eq!(w.strategy.tvl, 900);
}

#[test]
fn withdraw_by_non_owner_fails() {
    let mut d = deposit_ctx(Key::new([5u8; 32]));
    deposit(&mut d, 1_000).unwrap();
    let mut w = withdraw_ctx(&d, 1_000);
    assert_eq!(withdraw(&mut w, 100).unwrap_err(), KagemushaError::Unauthorized);
    assert!(w.position.is_some());
}

#[test]
fn withdraw_of_other_users_position_fails() {
    let mut d = deposit_ctx(owner());
    deposit(&mut d, 1_000).unwrap();
    let mut w = withdraw_ctx(&d, 1_000);
    let mut p = w.position.unwrap();
    p.user = Key::new([5u8; 32]);
    w.position = Some(p);
    assert_eq!(withdraw(&mut w, 100).unwrap_err(), KagemushaError::Unauthorized);
}

#[test]
fn withdraw_with_wrong_mint_fails() {
    let mut d = deposit_ctx(owner());
    deposit(&mut d, 1_000).unwrap();
    let mut w = withdraw_ctx(&d, 1_000);
    w.strategy_mint = Key::new([41u8; 32]);
    assert_eq!(withdraw(&mut w, 100).unwrap_err(), KagemushaError::MintMismatch);
}

#[test]
fn withdraw_with_short_custody_fails() {
    let mut d = deposit_ctx(owner());
    deposit(&mut d, 1_000).unwrap();
    let mut w = withdraw_ctx(&d, 999);
    assert_eq!(withdraw(&mut w, 100).unwrap_err(), KagemushaError::InsufficientFunds);
}

#[test]
fn withdraw_more_than_shares_fails() {
    let mut d = deposit_ctx(owner());
    deposit(&mut d, 1_000).unwrap();
    let mut w = withdraw_ctx(&d, 5_000);
    assert_eq!(withdraw(&mut w, 1_001).unwrap_err(), KagemushaError::InsufficientFunds);
    assert_eq!(withdraw(&mut w, 0).unwrap_err(), KagemushaError::InsufficientFunds);
    assert_eq!(withdraw(&mut w, 1_000).unwrap().amount, 1_000);
}

#[test]
fn withdraw_from_inactive_vault_fails() {
    let mut d = deposit_ctx(owner());
    deposit(&mut d, 1_000).unwrap();
    let mut w = withdraw_ctx(&d, 1_000);
    w.strategy.is_active = false;
    assert_eq!(withdraw(&mut w, 100).unwrap_err(), KagemushaError::StrategyInactive);
}

#[test]
fn withdraw_beyond_tvl_fails_with_overflow() {
    let mut d = deposit_ctx(owner());
    deposit(&mut d, 1_000).unwrap();
    let mut w = withdraw_ctx(&d, 1_000);
    w.strategy.tvl = 50;
    assert_eq!(withdraw(&mut w, 100).unwrap_err(), KagemushaError::MathOverflow);
}

#[test]
fn deposit_sol_credits_and_targets_vault_account() {
    let mut ctx = sol_ctx(Key::new([5u8; 32]));
    let t = deposit_sol(&mut ctx, 2_000).unwrap();
    assert_eq!(ctx.strategy.tvl, 2_000);
    assert_eq!(ctx.position.unwrap().lp_shares, 2_000);
    assert_eq!(t.from, Key::new([5u8; 32]));
    assert_eq!(t.to, ctx.vault_sol);
    assert_eq!(t.authority, Key::new([5u8; 32]));
}

#[test]
fn deposit_sol_to_wrong_vault_account_fails() {
    let mut ctx = sol_ctx(Key::new([5u8; 32]));
    ctx.vault_sol = Key::new([8u8; 32]);
    assert_eq!(deposit_sol(&mut ctx, 2_000).unwrap_err(), KagemushaError::ConstraintSeeds);
    assert_eq!(ctx.strategy.tvl, 0);
}

#[test]
fn deposit_sol_into_inactive_vault_fails() {
    let mut ctx = sol_ctx(Key::new([5u8; 32]));
    ctx.strategy.is_active = false;
    assert_eq!(deposit_sol(&mut ctx, 2_000).unwrap_err(), KagemushaError::StrategyInactive);
}

#[test]
fn withdraw_sol_keeps_position() {
    let mut d = sol_ctx(Key::new([5u8; 32]));
    deposit_sol(&mut d, 2_000).unwrap();
    let mut w = withdraw_sol_ctx(&d);
    let t = withdraw_sol(&mut w, 500).unwrap();
    assert_eq!(w.position.unwrap().lp_shares, 1_500);
    assert_eq!(w.position.unwrap().entry_value, 2_000);
    assert_eq!(w.strategy.tvl, 1_500);
    assert_eq!(t.from, d.vault_sol);
    assert_eq!(t.to, Key::new([5u8; 32]));
    assert_eq!(t.authority, d.vault_sol);
    let (_, bump) = derive_address(&vault_sol_seed_list(&d.strategy_key), &program()).unwrap();
    assert_eq!(t.signer_seeds.len(), 3);
    assert_eq!(t.signer_seeds[0], b"vault_sol".to_vec());
    assert_eq!(t.signer_seeds[1], d.strategy_key.bytes.to_vec());
    assert_eq!(t.signer_seeds[2], vec![bump]);
}

#[test]
fn withdraw_sol_twice_fails_for_want_of_shares() {
    let mut d = sol_ctx(Key::new([5u8; 32]));
    deposit_sol(&mut d, 1_000).unwrap();
    let mut w = withdraw_sol_ctx(&d);
    withdraw_sol(&mut w, 600).unwrap();
    assert_eq!(withdraw_sol(&mut w, 600).unwrap_err(), KagemushaError::InsufficientFunds);
    assert_eq!(w.position.unwrap().lp_shares, 400);
}

#[test]
fn withdraw_sol_by_other_user_fails() {
    let mut d = sol_ctx(Key::new([5u8; 32]));
    deposit_sol(&mut d, 1_000).unwrap();
    let mut w = withdraw_sol_ctx(&d);
    let mut p = w.position.unwrap();
    p.user = Key::new([6u8; 32]);
    w.position = Some(p);
    assert_eq!(withdraw_sol(&mut w, 100).unwrap_err(), KagemushaError::Unauthorized);
}

#[test]
fn withdraw_sol_without_position_fails() {
    let d = sol_ctx(Key::new([5u8; 32]));
    let mut w = withdraw_sol_ctx(&d);
    assert_eq!(withdraw_sol(&mut w, 100).unwrap_err(), KagemushaError::AccountNotInitialized);
}

#[test]
fn deposit_into_custody_not_held_by_vault_fails() {
    let mut ctx = deposit_ctx(Key::new([5u8; 32]));
    ctx.vault_token_account.owner = Key::new([5u8; 32]);
    assert_eq!(deposit(&mut ctx, 1_000).unwrap_err(), KagemushaError::ConstraintTokenOwner);
    assert_eq!(ctx.strategy.tvl, 0);
    assert!(ctx.position.is_none());
}

#[test]
fn withdraw_of_position_at_other_users_address_is_unauthorized() {
    let other = Key::new([5u8; 32]);
    let mut d = deposit_ctx(other);
    deposit(&mut d, 1_000).unwrap();
    let mut w = withdraw_ctx(&d, 1_000);
    w.owner = owner();
    assert_eq!(withdraw(&mut w, 100).unwrap_err(), KagemushaError::Unauthorized);
    assert!(w.position.is_some());
    assert_eq!(w.strategy.tvl, 1_000);
}

#[test]
fn withdraw_with_short_custody_and_wrong_mint_reports_funds() {
    let mut d = deposit_ctx(owner());
    deposit(&mut d, 1_000).unwrap();
    let mut w = withdraw_ctx(&d, 999);
    w.strategy_mint = Key::new([41u8; 32]);
    assert_eq!(withdraw(&mut w, 100).unwrap_err(), KagemushaError::InsufficientFunds);
}

#[test]
fn withdraw_sol_of_position_at_other_users_address_is_unauthorized() {
    let mut d = sol_ctx(Key::new([5u8; 32]));
    deposit_sol(&mut d, 1_000).unwrap();
    let mut w = withdraw_sol_ctx(&d);
    w.user = Key::new([6u8; 32]);
    assert_eq!(withdraw_sol(&mut w, 100).unwrap_err(), KagemushaError::Unauthorized);
    assert_eq!(w.position.unwrap().lp_shares, 1_000);
}
