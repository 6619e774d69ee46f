use vstd::prelude::*;

pub mod authority;
pub mod deposit;
pub mod deposit_sol;
pub mod errors;
pub mod initialize;
pub mod rebalance;
pub mod state;
pub mod withdraw;
pub mod withdraw_sol;

use crate::deposit::{deposited, Deposit};
use crate::deposit_sol::{deposited_sol, DepositSol};
use crate::errors::KagemushaError;
use crate::initialize::{created, InitializeStrategy};
use crate::rebalance::{rebalanced, Rebalance, RebalancePlan};
use crate::state::Transfer;
use crate::withdraw::{withdrawn, Withdraw};
use crate::withdraw_sol::{withdrawn_sol, WithdrawSol};

verus! {

/// Initializes a new strategy vault: the name at most 32 bytes, the type
/// 0 (Sniper), 1 (Fortress) or 2 (Wave), the weights in basis points summing
/// to 10000.
pub fn initialize_strategy(
    ctx: &mut InitializeStrategy,
    name: String,
    strategy_type: u8,
    target_weights: Vec<u16>,
) -> (r: Result<(), KagemushaError>)
    ensures
        created(*old(ctx), *final(ctx), name@, strategy_type, target_weights@, r),
{
    initialize::handler(ctx, name, strategy_type, target_weights)
}

/// Deposits tokens into a strategy vault, creating or updating the user's
/// position.
pub fn deposit(ctx: &mut Deposit, amount: u64) -> (r: Result<Transfer, KagemushaError>)
    ensures
        deposited(*old(ctx), *final(ctx), amount, r),
{
    deposit::handler(ctx, amount)
}

/// Rebalances through the pinned swap service; only the vault's owner may.
pub fn tactical_rebalance(
    ctx: &mut Rebalance,
    amount_in: u64,
    minimum_amount_out: u64,
    route_data: Vec<u8>,
) -> (r: Result<RebalancePlan, KagemushaError>)
    ensures
        rebalanced(*old(ctx), *final(ctx), amount_in, minimum_amount_out, route_data@, r),
{
    rebalance::handler(ctx, amount_in, minimum_amount_out, route_data)
}

/// Withdraws tokens from a strategy vault, retiring the position.
pub fn withdraw(ctx: &mut Withdraw, amount: u64) -> (r: Result<Transfer, KagemushaError>)
    ensures
        withdrawn(*old(ctx), *final(ctx), amount, r),
{
    withdraw::handler(ctx, amount)
}

/// Deposits the native currency into a strategy vault.
pub fn deposit_sol(ctx: &mut DepositSol, amount: u64) -> (r: Result<Transfer, KagemushaError>)
    ensures
        deposited_sol(*old(ctx), *final(ctx), amount, r),
{
    deposit_sol::handler(ctx, amount)
}

/// Withdraws the native currency from a strategy vault, keeping the position.
pub fn withdraw_sol(ctx: &mut WithdrawSol, amount: u64) -> (r: Result<Transfer, KagemushaError>)
    ensures
        withdrawn_sol(*old(ctx), *final(ctx), amount, r),
{
    withdraw_sol::handler(ctx, amount)
}

} // verus!
