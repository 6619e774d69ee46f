use vstd::prelude::*;
use crate::authority::{check_address, custody_seed_list, custody_seeds, derives, position_seed_list, position_seeds};
use crate::errors::KagemushaError;
use crate::state::{shares_of, Key, StrategyVault, TokenAccount, Transfer, UserPosition};

verus! {

/// What a token withdrawal reads and may write.
pub struct Withdraw {
    pub program_id: Key,
    pub strategy_key: Key,
    pub strategy: StrategyVault,
    /// Address of the caller's position record.
    pub position_key: Key,
    /// The record at that address, if there is one; retired by a withdrawal.
    pub position: Option<UserPosition>,
    /// The caller, who signs: the vault's owner and the position's user.
    pub owner: Key,
    /// The vault's custody account.
    pub vault_token_account: TokenAccount,
    pub user_token_account: Key,
    /// The asset that the vault holds.
    pub strategy_mint: Key,
}

/// The first check that a token withdrawal fails, if any, in the order they
/// are made.
pub open spec fn withdraw_error(ctx: Withdraw, amount: u64) -> Option<KagemushaError> {
    if ctx.strategy.owner@ != ctx.owner@ {
        Some(KagemushaError::Unauthorized)
    } else if ctx.position is None {
        Some(KagemushaError::AccountNotInitialized)
    } else if ctx.position->0.user@ != ctx.owner@ {
        Some(KagemushaError::Unauthorized)
    } else if !derives(position_seeds(ctx.strategy_key@, ctx.owner@), ctx.program_id@, ctx.position_key@) {
        Some(KagemushaError::ConstraintSeeds)
    } else if ctx.vault_token_account.amount < ctx.position->0.lp_shares {
        Some(KagemushaError::InsufficientFunds)
    } else if ctx.vault_token_account.mint@ != ctx.strategy_mint@ {
        Some(KagemushaError::MintMismatch)
    } else if !ctx.strategy.is_active {
        Some(KagemushaError::StrategyInactive)
    } else if amount == 0 || amount > ctx.position->0.lp_shares {
        Some(KagemushaError::InsufficientFunds)
    } else if ctx.strategy.tvl < amount {
        Some(KagemushaError::MathOverflow)
    } else {
        None
    }
}

/// The handler's contract: `o` before the call, `f` after it, `r` its result.
pub open spec fn withdrawn(
    o: Withdraw,
    f: Withdraw,
    amount: u64,
    r: Result<Transfer, KagemushaError>,
) -> bool {
    &&& (r is Ok <==> withdraw_error(o, amount) is None)
    &&& (r matches Err(e) ==> Some(e) == withdraw_error(o, amount) && f == o)
    &&& (r matches Ok(t) ==> {
        &&& t.from == o.vault_token_account.key
        &&& t.to == o.user_token_account
        &&& t.authority == o.strategy_key
        &&& t.amount == amount
        &&& t.signer_seeds.deep_view() == custody_seeds(o.strategy)
        &&& f == (Withdraw {
            strategy: StrategyVault {
                tvl: (o.strategy.tvl - amount) as u64,
                ..o.strategy
            },
            position: None,
            ..o
        })
    })
}

/// Withdraws `amount` of the vault's token to the caller, who must own both
/// the vault and the position: the vault's total drops by `amount`, the
/// position record is retired whatever part of it was withdrawn, and the
/// transfer out of custody, signed as the vault's custody authority, is
/// handed back to be carried out together with the new records.
pub fn handler(ctx: &mut Withdraw, amount: u64) -> (r: Result<Transfer, KagemushaError>)
    ensures
        withdrawn(*old(ctx), *final(ctx), amount, r),
{
    if ctx.strategy.owner != ctx.owner {
        return Err(KagemushaError::Unauthorized);
    }
    let position = match ctx.position {
        Some(p) => p,
        None => {
            return Err(KagemushaError::AccountNotInitialized);
        },
    };
    if position.user != ctx.owner {
        return Err(KagemushaError::Unauthorized);
    }
    let seeds = position_seed_list(&ctx.strategy_key, &ctx.owner);
    match check_address(&seeds, &ctx.program_id, &ctx.position_key) {
        Ok(_) => {},
        Err(e) => {
            return Err(e);
        },
    }
    if ctx.vault_token_account.amount < position.lp_shares {
        return Err(KagemushaError::InsufficientFunds);
    }
    if ctx.vault_token_account.mint != ctx.strategy_mint {
        return Err(KagemushaError::MintMismatch);
    }
    if !ctx.strategy.is_active {
        return Err(KagemushaError::StrategyInactive);
    }
    if amount == 0 || amount > position.lp_shares {
        return Err(KagemushaError::InsufficientFunds);
    }
    let tvl = match ctx.strategy.tvl.checked_sub(amount) {
        Some(v) => v,
        None => {
            return Err(KagemushaError::MathOverflow);
        },
    };
    let signer_seeds = custody_seed_list(&ctx.strategy);
    ctx.strategy.tvl = tvl;
    ctx.position = None;
    Ok(
        Transfer {
            from: ctx.vault_token_account.key,
            to: ctx.user_token_account,
            authority: ctx.strategy_key,
            amount,
            signer_seeds,
        },
    )
}

/// A token withdrawal retires the position, so the same withdrawal made
/// again right after it fails at the missing record and changes nothing.
pub proof fn lemma_withdraw_twice_fails(
    c0: Withdraw,
    c1: Withdraw,
    c2: Withdraw,
    amount: u64,
    r1: Result<Transfer, KagemushaError>,
    r2: Result<Transfer, KagemushaError>,
)
    requires
        withdrawn(c0, c1, amount, r1),
        r1 is Ok,
        withdrawn(c1, c2, amount, r2),
    ensures
        r2 matches Err(e) && e == KagemushaError::AccountNotInitialized,
        c2 == c1,
{
}


/// The shares of all positions stay within the vault's total across a token
/// withdrawal: `others` is what the vault's other positions hold.
pub proof fn lemma_withdraw_keeps_shares_within_tvl(
    o: Withdraw,
    f: Withdraw,
    amount: u64,
    r: Result<Transfer, KagemushaError>,
    others: int,
)
    requires
        withdrawn(o, f, amount, r),
        0 <= others,
        others + shares_of(o.position) <= o.strategy.tvl,
    ensures
        others + shares_of(f.position) <= f.strategy.tvl,
{
}

} // verus!
