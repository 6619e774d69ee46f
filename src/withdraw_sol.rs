use vstd::prelude::*;
use crate::authority::{
    check_address,
    derives,
    is_found,
    position_seed_list,
    position_seeds,
    signer_seed_list,
    vault_sol_seed_list,
    vault_sol_seeds,
    with_bump,
};
use crate::errors::KagemushaError;
use crate::state::{shares_of, Key, StrategyVault, Transfer, UserPosition};

verus! {

/// What a native-currency withdrawal reads and may write.
pub struct WithdrawSol {
    pub program_id: Key,
    pub strategy_key: Key,
    pub strategy: StrategyVault,
    /// Address of the caller's position record.
    pub position_key: Key,
    /// The record at that address, if there is one; it is kept.
    pub position: Option<UserPosition>,
    /// The caller, who signs: the position's user.
    pub user: Key,
    /// The vault's native-currency account.
    pub vault_sol: Key,
}

/// The first check that a native-currency withdrawal fails, if any, in the
/// order they are made.
pub open spec fn withdraw_sol_error(ctx: WithdrawSol, amount: u64) -> Option<KagemushaError> {
    if ctx.position is None {
        Some(KagemushaError::AccountNotInitialized)
    } else if ctx.position->0.user@ != ctx.user@ {
        Some(KagemushaError::Unauthorized)
    } else if !derives(position_seeds(ctx.strategy_key@, ctx.user@), ctx.program_id@, ctx.position_key@) {
        Some(KagemushaError::ConstraintSeeds)
    } else if !derives(vault_sol_seeds(ctx.strategy_key@), ctx.program_id@, ctx.vault_sol@) {
        Some(KagemushaError::ConstraintSeeds)
    } else if !ctx.strategy.is_active {
        Some(KagemushaError::StrategyInactive)
    } else if amount == 0 || amount > ctx.position->0.lp_shares {
        Some(KagemushaError::InsufficientFunds)
    } else if ctx.strategy.tvl < amount {
        Some(KagemushaError::MathOverflow)
    } else {
        None
    }
}

/// The handler's contract: `o` before the call, `f` after it, `r` its result.
pub open spec fn withdrawn_sol(
    o: WithdrawSol,
    f: WithdrawSol,
    amount: u64,
    r: Result<Transfer, KagemushaError>,
) -> bool {
    &&& (r is Ok <==> withdraw_sol_error(o, amount) is None)
    &&& (r matches Err(e) ==> Some(e) == withdraw_sol_error(o, amount) && f == o)
    &&& (r matches Ok(t) ==> {
        &&& t.from == o.vault_sol
        &&& t.to == o.user
        &&& t.authority == o.vault_sol
        &&& t.amount == amount
        &&& exists|b: u8|
            is_found(vault_sol_seeds(o.strategy_key@), o.program_id@, o.vault_sol@, b)
                && t.signer_seeds.deep_view() == with_bump(vault_sol_seeds(o.strategy_key@), b)
        &&& f == (WithdrawSol {
            strategy: StrategyVault {
                tvl: (o.strategy.tvl - amount) as u64,
                ..o.strategy
            },
            position: Some(UserPosition {
                lp_shares: (o.position->0.lp_shares - amount) as u64,
                ..o.position->0
            }),
            ..o
        })
    })
}

/// Withdraws `amount` of the native currency to the position's user: the
/// position's shares and the vault's total drop by `amount`, the position
/// record is kept, and the transfer out of the vault's native-currency
/// account, signed as that account, is handed back to be carried out together
/// with the new records.
pub fn handler(ctx: &mut WithdrawSol, amount: u64) -> (r: Result<Transfer, KagemushaError>)
    ensures
        withdrawn_sol(*old(ctx), *final(ctx), amount, r),
{
    let position = match ctx.position {
        Some(p) => p,
        None => {
            return Err(KagemushaError::AccountNotInitialized);
        },
    };
    if position.user != ctx.user {
        return Err(KagemushaError::Unauthorized);
    }
    let seeds = position_seed_list(&ctx.strategy_key, &ctx.user);
    match check_address(&seeds, &ctx.program_id, &ctx.position_key) {
        Ok(_) => {},
        Err(e) => {
            return Err(e);
        },
    }
    let sol_seeds = vault_sol_seed_list(&ctx.strategy_key);
    let sol_bump = match check_address(&sol_seeds, &ctx.program_id, &ctx.vault_sol) {
        Ok(b) => b,
        Err(e) => {
            return Err(e);
        },
    };
    if !ctx.strategy.is_active {
        return Err(KagemushaError::StrategyInactive);
    }
    if amount == 0 || amount > position.lp_shares {
        return Err(KagemushaError::InsufficientFunds);
    }
    let tvl = match ctx.strategy.tvl.checked_sub(amount) {
        Some(v) => v,
        None => {
            return Err(KagemushaError::MathOverflow);
        },
    };
    let signer_seeds = signer_seed_list(sol_seeds, sol_bump);
    ctx.strategy.tvl = tvl;
    ctx.position = Some(UserPosition { lp_shares: position.lp_shares - amount, ..position });
    Ok(
        Transfer {
            from: ctx.vault_sol,
            to: ctx.user,
            authority: ctx.vault_sol,
            amount,
            signer_seeds,
        },
    )
}

/// A native-currency withdrawal keeps the position, so the same withdrawal
/// made again right after it fails for want of shares, where the first left
/// fewer than the amount, and changes nothing.
pub proof fn lemma_withdraw_sol_twice_fails(
    c0: WithdrawSol,
    c1: WithdrawSol,
    c2: WithdrawSol,
    amount: u64,
    r1: Result<Transfer, KagemushaError>,
    r2: Result<Transfer, KagemushaError>,
)
    requires
        withdrawn_sol(c0, c1, amount, r1),
        r1 is Ok,
        withdrawn_sol(c1, c2, amount, r2),
        c0.position->0.lp_shares < 2 * amount,
    ensures
        r2 matches Err(e) && e == KagemushaError::InsufficientFunds,
        c2 == c1,
{
}


/// The shares of all positions stay within the vault's total across a
/// native-currency withdrawal: `others` is what the vault's other positions
/// hold.
pub proof fn lemma_withdraw_sol_keeps_shares_within_tvl(
    o: WithdrawSol,
    f: WithdrawSol,
    amount: u64,
    r: Result<Transfer, KagemushaError>,
    others: int,
)
    requires
        withdrawn_sol(o, f, amount, r),
        0 <= others,
        others + shares_of(o.position) <= o.strategy.tvl,
    ensures
        others + shares_of(f.position) <= f.strategy.tvl,
{
}

} // verus!
