use vstd::prelude::*;
use crate::authority::{
    check_address,
    derives,
    is_found,
    position_seed_list,
    position_seeds,
    vault_sol_seed_list,
    vault_sol_seeds,
};
use crate::deposit::{credit, credit_error, is_credited};
use crate::errors::KagemushaError;
use crate::state::{entry_of, shares_of, Key, StrategyVault, Transfer, UserPosition};

verus! {

/// What a native-currency deposit reads and may write.
pub struct DepositSol {
    pub program_id: Key,
    pub strategy_key: Key,
    pub strategy: StrategyVault,
    /// Address of the depositor's position record.
    pub position_key: Key,
    /// The record at that address, if there is one.
    pub position: Option<UserPosition>,
    /// The depositor, who signs and pays.
    pub user: Key,
    /// The vault's native-currency account.
    pub vault_sol: Key,
    /// The clock's time.
    pub now: i64,
}

/// The first check that a native-currency deposit fails, if any.
pub open spec fn deposit_sol_error(ctx: DepositSol, amount: u64) -> Option<KagemushaError> {
    if !derives(position_seeds(ctx.strategy_key@, ctx.user@), ctx.program_id@, ctx.position_key@) {
        Some(KagemushaError::ConstraintSeeds)
    } else if !derives(vault_sol_seeds(ctx.strategy_key@), ctx.program_id@, ctx.vault_sol@) {
        Some(KagemushaError::ConstraintSeeds)
    } else {
        credit_error(ctx.strategy, ctx.position, amount)
    }
}

/// The handler's contract: `o` before the call, `f` after it, `r` its result.
pub open spec fn deposited_sol(
    o: DepositSol,
    f: DepositSol,
    amount: u64,
    r: Result<Transfer, KagemushaError>,
) -> bool {
    &&& (r is Ok <==> deposit_sol_error(o, amount) is None)
    &&& (r matches Err(e) ==> Some(e) == deposit_sol_error(o, amount) && f == o)
    &&& (r matches Ok(t) ==> {
        &&& t.from == o.user
        &&& t.to == o.vault_sol
        &&& t.authority == o.user
        &&& t.amount == amount
        &&& t.signer_seeds@.len() == 0
        &&& f == (DepositSol {
            strategy: StrategyVault {
                tvl: (o.strategy.tvl + amount) as u64,
                ..o.strategy
            },
            position: f.position,
            ..o
        })
        &&& f.position matches Some(p)
        &&& is_credited(p, o.position, o.strategy_key, o.user, amount, o.now)
        &&& is_found(
            position_seeds(o.strategy_key@, o.user@),
            o.program_id@,
            o.position_key@,
            p.bump,
        )
    })
}

/// Deposits `amount` of the native currency: the user's position is created
/// or credited, the vault's total grows by `amount`, and the transfer from the
/// user to the vault's native-currency account is handed back to be carried
/// out together with the new records.
pub fn handler(ctx: &mut DepositSol, amount: u64) -> (r: Result<Transfer, KagemushaError>)
    ensures
        deposited_sol(*old(ctx), *final(ctx), amount, r),
{
    let seeds = position_seed_list(&ctx.strategy_key, &ctx.user);
    let bump = match check_address(&seeds, &ctx.program_id, &ctx.position_key) {
        Ok(b) => b,
        Err(e) => {
            return Err(e);
        },
    };
    let sol_seeds = vault_sol_seed_list(&ctx.strategy_key);
    match check_address(&sol_seeds, &ctx.program_id, &ctx.vault_sol) {
        Ok(_) => {},
        Err(e) => {
            return Err(e);
        },
    }
    let strategy_key = ctx.strategy_key;
    let user = ctx.user;
    let now = ctx.now;
    match credit(&mut ctx.strategy, &mut ctx.position, strategy_key, user, bump, now, amount) {
        Ok(()) => {},
        Err(e) => {
            return Err(e);
        },
    }
    Ok(
        Transfer {
            from: ctx.user,
            to: ctx.vault_sol,
            authority: ctx.user,
            amount,
            signer_seeds: Vec::new(),
        },
    )
}

/// A native-currency deposit of a positive amount that succeeds adds exactly
/// that amount to the vault's total and to the position's shares and entry
/// value; into an inactive vault it fails and changes nothing, with
/// `StrategyInactive` where the position and the native-currency account are
/// at their derived addresses. With both there, an active vault and no
/// overflow, it succeeds.
pub proof fn lemma_deposit_sol_credits_exactly(
    o: DepositSol,
    f: DepositSol,
    amount: u64,
    r: Result<Transfer, KagemushaError>,
)
    requires
        deposited_sol(o, f, amount, r),
        amount > 0,
    ensures
        r is Ok ==> {
            &&& f.strategy.tvl == o.strategy.tvl + amount
            &&& shares_of(f.position) == shares_of(o.position) + amount
            &&& entry_of(f.position) == entry_of(o.position) + amount
        },
        !o.strategy.is_active ==> r is Err && f == o,
        (derives(position_seeds(o.strategy_key@, o.user@), o.program_id@, o.position_key@)
            && derives(vault_sol_seeds(o.strategy_key@), o.program_id@, o.vault_sol@)
            && !o.strategy.is_active) ==> (r matches Err(e) && e == KagemushaError::StrategyInactive),
        (derives(position_seeds(o.strategy_key@, o.user@), o.program_id@, o.position_key@)
            && derives(vault_sol_seeds(o.strategy_key@), o.program_id@, o.vault_sol@)
            && o.strategy.is_active && shares_of(o.position) + amount <= u64::MAX && entry_of(
            o.position,
        ) + amount <= u64::MAX && o.strategy.tvl + amount <= u64::MAX) ==> r is Ok,
{
}


/// The shares of all positions stay within the vault's total across a
/// native-currency deposit: `others` is what the vault's other positions hold.
pub proof fn lemma_deposit_sol_keeps_shares_within_tvl(
    o: DepositSol,
    f: DepositSol,
    amount: u64,
    r: Result<Transfer, KagemushaError>,
    others: int,
)
    requires
        deposited_sol(o, f, amount, r),
        0 <= others,
        others + shares_of(o.position) <= o.strategy.tvl,
    ensures
        others + shares_of(f.position) <= f.strategy.tvl,
{
}

} // verus!
