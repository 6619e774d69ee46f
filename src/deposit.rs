use vstd::prelude::*;
use crate::authority::{check_address, derives, is_found, position_seed_list, position_seeds};
use crate::errors::KagemushaError;
use crate::state::{entry_of, shares_of, Key, StrategyVault, TokenAccount, Transfer, UserPosition};

verus! {

/// What a token deposit reads and may write.
pub struct Deposit {
    pub program_id: Key,
    pub strategy_key: Key,
    pub strategy: StrategyVault,
    /// Address of the depositor's position record.
    pub position_key: Key,
    /// The record at that address, if there is one.
    pub position: Option<UserPosition>,
    /// The depositor, who signs.
    pub user: Key,
    pub user_token_account: Key,
    /// The vault's custody account, which the vault's own address holds.
    pub vault_token_account: TokenAccount,
    /// The clock's time.
    pub now: i64,
}

/// The first check that crediting `amount` fails, if any.
pub open spec fn credit_error(
    strategy: StrategyVault,
    position: Option<UserPosition>,
    amount: u64,
) -> Option<KagemushaError> {
    if !strategy.is_active {
        Some(KagemushaError::StrategyInactive)
    } else if amount == 0 {
        Some(KagemushaError::InsufficientFunds)
    } else if shares_of(position) + amount > u64::MAX || entry_of(position) + amount > u64::MAX
        || strategy.tvl + amount > u64::MAX {
        Some(KagemushaError::MathOverflow)
    } else {
        None
    }
}

/// `p` is the position after `amount` is credited to `old`.
pub open spec fn is_credited(
    p: UserPosition,
    old: Option<UserPosition>,
    strategy_key: Key,
    user: Key,
    amount: u64,
    now: i64,
) -> bool {
    &&& p.vault == strategy_key
    &&& p.user == user
    &&& p.lp_shares == shares_of(old) + amount
    &&& p.entry_value == entry_of(old) + amount
    &&& p.deposit_time == now
}

/// Credits `amount` to the vault and to the position, which is created where
/// it does not exist; nothing changes on an error.
pub fn credit(
    strategy: &mut StrategyVault,
    position: &mut Option<UserPosition>,
    strategy_key: Key,
    user: Key,
    bump: u8,
    now: i64,
    amount: u64,
) -> (r: Result<(), KagemushaError>)
    ensures
        r is Ok <==> credit_error(*old(strategy), *old(position), amount) is None,
        r matches Err(e) ==> Some(e) == credit_error(*old(strategy), *old(position), amount)
            && *final(strategy) == *old(strategy) && *final(position) == *old(position),
        r is Ok ==> *final(strategy) == (StrategyVault {
            tvl: (old(strategy).tvl + amount) as u64,
            ..*old(strategy)
        }),
        r is Ok ==> (*final(position) matches Some(p) && is_credited(
            p,
            *old(position),
            strategy_key,
            user,
            amount,
            now,
        ) && p.bump == bump),
{
    if !strategy.is_active {
        return Err(KagemushaError::StrategyInactive);
    }
    if amount == 0 {
        return Err(KagemushaError::InsufficientFunds);
    }
    let (shares, entry) = match position {
        Some(p) => (p.lp_shares, p.entry_value),
        None => (0u64, 0u64),
    };
    let lp_shares = match shares.checked_add(amount) {
        Some(v) => v,
        None => {
            return Err(KagemushaError::MathOverflow);
        },
    };
    let entry_value = match entry.checked_add(amount) {
        Some(v) => v,
        None => {
            return Err(KagemushaError::MathOverflow);
        },
    };
    let tvl = match strategy.tvl.checked_add(amount) {
        Some(v) => v,
        None => {
            return Err(KagemushaError::MathOverflow);
        },
    };
    *position = Some(
        UserPosition {
            vault: strategy_key,
            user,
            lp_shares,
            deposit_time: now,
            entry_value,
            bump,
        },
    );
    strategy.tvl = tvl;
    Ok(())
}

/// The first check that a token deposit fails, if any.
pub open spec fn deposit_error(ctx: Deposit, amount: u64) -> Option<KagemushaError> {
    if !derives(position_seeds(ctx.strategy_key@, ctx.user@), ctx.program_id@, ctx.position_key@) {
        Some(KagemushaError::ConstraintSeeds)
    } else if !ctx.strategy.is_active {
        Some(KagemushaError::StrategyInactive)
    } else if amount == 0 {
        Some(KagemushaError::InsufficientFunds)
    } else if ctx.vault_token_account.owner@ != ctx.strategy_key@ {
        Some(KagemushaError::ConstraintTokenOwner)
    } else {
        credit_error(ctx.strategy, ctx.position, amount)
    }
}

/// The handler's contract: `o` before the call, `f` after it, `r` its result.
pub open spec fn deposited(
    o: Deposit,
    f: Deposit,
    amount: u64,
    r: Result<Transfer, KagemushaError>,
) -> bool {
    &&& (r is Ok <==> deposit_error(o, amount) is None)
    &&& (r matches Err(e) ==> Some(e) == deposit_error(o, amount) && f == o)
    &&& (r matches Ok(t) ==> {
        &&& t.from == o.user_token_account
        &&& t.to == o.vault_token_account.key
        &&& t.authority == o.user
        &&& t.amount == amount
        &&& t.signer_seeds@.len() == 0
        &&& f == (Deposit {
            strategy: StrategyVault {
                tvl: (o.strategy.tvl + amount) as u64,
                ..o.strategy
            },
            position: f.position,
            ..o
        })
        &&& f.position matches Some(p)
        &&& is_credited(p, o.position, o.strategy_key, o.user, amount, o.now)
        &&& is_found(
            position_seeds(o.strategy_key@, o.user@),
            o.program_id@,
            o.position_key@,
            p.bump,
        )
    })
}

/// Deposits `amount` of the vault's token into the vault's custody account,
/// which must belong to the vault's address: the user's position is created or
/// credited, the vault's total grows by `amount`, and the transfer from the
/// user's token account into custody, signed by the user, is handed back to
/// be carried out together with the new records.
pub fn handler(ctx: &mut Deposit, amount: u64) -> (r: Result<Transfer, KagemushaError>)
    ensures
        deposited(*old(ctx), *final(ctx), amount, r),
{
    let seeds = position_seed_list(&ctx.strategy_key, &ctx.user);
    let bump = match check_address(&seeds, &ctx.program_id, &ctx.position_key) {
        Ok(b) => b,
        Err(e) => {
            return Err(e);
        },
    };
    if !ctx.strategy.is_active {
        return Err(KagemushaError::StrategyInactive);
    }
    if amount == 0 {
        return Err(KagemushaError::InsufficientFunds);
    }
    if ctx.vault_token_account.owner != ctx.strategy_key {
        return Err(KagemushaError::ConstraintTokenOwner);
    }
    let strategy_key = ctx.strategy_key;
    let user = ctx.user;
    let now = ctx.now;
    match credit(&mut ctx.strategy, &mut ctx.position, strategy_key, user, bump, now, amount) {
        Ok(()) => {},
        Err(e) => {
            return Err(e);
        },
    }
    Ok(
        Transfer {
            from: ctx.user_token_account,
            to: ctx.vault_token_account.key,
            authority: ctx.user,
            amount,
            signer_seeds: Vec::new(),
        },
    )
}

/// A token deposit of a positive amount that succeeds adds exactly that
/// amount to the vault's total and to the position's shares and entry value;
/// into an inactive vault it fails and changes nothing, with
/// `StrategyInactive` where the position is at its derived address. With the
/// position at that address, custody held by the vault, an active vault and
/// no overflow, it succeeds.
pub proof fn lemma_deposit_credits_exactly(
    o: Deposit,
    f: Deposit,
    amount: u64,
    r: Result<Transfer, KagemushaError>,
)
    requires
        deposited(o, f, amount, r),
        amount > 0,
    ensures
        r is Ok ==> {
            &&& f.strategy.tvl == o.strategy.tvl + amount
            &&& shares_of(f.position) == shares_of(o.position) + amount
            &&& entry_of(f.position) == entry_of(o.position) + amount
        },
        !o.strategy.is_active ==> r is Err && f == o,
        (derives(position_seeds(o.strategy_key@, o.user@), o.program_id@, o.position_key@)
            && !o.strategy.is_active) ==> (r matches Err(e) && e == KagemushaError::StrategyInactive),
        (derives(position_seeds(o.strategy_key@, o.user@), o.program_id@, o.position_key@)
            && o.strategy.is_active && o.vault_token_account.owner@ == o.strategy_key@
            && shares_of(o.position) + amount <= u64::MAX && entry_of(o.position) + amount <= u64::MAX
            && o.strategy.tvl + amount <= u64::MAX) ==> r is Ok,
{
}


/// The shares of all positions stay within the vault's total across a token
/// deposit: `others` is what the vault's other positions hold.
pub proof fn lemma_deposit_keeps_shares_within_tvl(
    o: Deposit,
    f: Deposit,
    amount: u64,
    r: Result<Transfer, KagemushaError>,
    others: int,
)
    requires
        deposited(o, f, amount, r),
        0 <= others,
        others + shares_of(o.position) <= o.strategy.tvl,
    ensures
        others + shares_of(f.position) <= f.strategy.tvl,
{
}

} // verus!
