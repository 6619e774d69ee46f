use vstd::prelude::*;
use anchor_lang::prelude::Pubkey;
use crate::authority::{custody_seed_list, custody_seeds};
use crate::errors::KagemushaError;
use crate::state::{Key, StrategyVault, TokenAccount, Transfer};

verus! {

/// The protocol fee, in basis points of the amount swapped in.
pub const PROTOCOL_FEE_BPS: u64 = 50;

/// Basis points in a whole.
pub const BPS_DENOMINATOR: u64 = 10000;

/// The largest route payload handed to the swap service, in bytes.
pub const MAX_ROUTE_DATA_LEN: usize = 1200;

/// The swap service that a rebalance may call.
pub const JUPITER_PROGRAM_ID: &'static str = "JUP6LkbZbjS1jKKwapdHNy74zcZ3tLUZoi5QNyVTaV4";

/// The swap service's event authority.
pub const JUPITER_EVENT_AUTHORITY: &'static str = "D8cy77BBepLMngZx6ZukaTff5hCt1HrWyKk3Hnd9oitf";

/// The treasury that receives protocol fees.
pub const PROTOCOL_TREASURY_PUBKEY: &'static str = "9WzDXwBbmkg8ZTbNMmuUwqPFthNQ4EqC";

/// The arguments of a route call, as the swap service lays them out.
#[derive(Clone, Debug)]
pub struct JupiterRouteInstruction {
    pub route_plan: Vec<u8>,
    pub in_amount: u64,
    pub quoted_out_amount: u64,
    pub slippage_bps: u16,
    pub platform_fee_bps: u8,
}

/// The key that `Pubkey::from_str` reads from a text, or `None` where it
/// refuses the text.
pub uninterp spec fn parsed_key(s: Seq<char>) -> Option<Seq<u8>>;

/// Relies on Pubkey::from_str: base58 text that decodes to exactly 32 bytes
/// gives those bytes; other text is refused.
#[verifier::external_body]
fn key_from_text(s: &str) -> (r: Option<Key>)
    ensures
        parsed_key(s@) == (match r {
            Some(k) => Some(k@),
            None => None,
        }),
{
    <Pubkey as std::str::FromStr>::from_str(s).ok().map(|k| Key { bytes: k.to_bytes() })
}

/// The fixed identities that a rebalance is held to, set once for the program.
#[derive(Clone, Copy, Debug)]
pub struct Pinned {
    /// The only swap service that may be called.
    pub swap_program: Key,
    /// Its event authority.
    pub event_authority: Key,
    /// The only account that may receive fees.
    pub treasury: Key,
}

impl Pinned {
    /// Reads the three identities from their base58 text; `None` where any
    /// of them is not a key.
    pub fn from_text(swap_program: &str, event_authority: &str, treasury: &str) -> (r: Option<Pinned>)
        ensures
            r is Some <==> (parsed_key(swap_program@) is Some && parsed_key(event_authority@) is Some
                && parsed_key(treasury@) is Some),
            r matches Some(p) ==> {
                &&& parsed_key(swap_program@) == Some(p.swap_program@)
                &&& parsed_key(event_authority@) == Some(p.event_authority@)
                &&& parsed_key(treasury@) == Some(p.treasury@)
            },
    {
        let s = match key_from_text(swap_program) {
            Some(k) => k,
            None => {
                return None;
            },
        };
        let e = match key_from_text(event_authority) {
            Some(k) => k,
            None => {
                return None;
            },
        };
        let t = match key_from_text(treasury) {
            Some(k) => k,
            None => {
                return None;
            },
        };
        Some(Pinned { swap_program: s, event_authority: e, treasury: t })
    }
}

/// The fee on `amount_in`: 0.5%, rounded down, and at least 1.
pub open spec fn fee_of(amount_in: int) -> int {
    let f = amount_in * PROTOCOL_FEE_BPS / BPS_DENOMINATOR as int;
    if f < 1 {
        1
    } else {
        f
    }
}

/// Computes the protocol fee on `amount_in`; the multiplication is checked.
pub fn protocol_fee(amount_in: u64) -> (r: Result<u64, KagemushaError>)
    ensures
        r is Err <==> amount_in * PROTOCOL_FEE_BPS > u64::MAX,
        r matches Err(e) ==> e == KagemushaError::MathOverflow,
        r matches Ok(f) ==> f == fee_of(amount_in as int),
{
    let product = match amount_in.checked_mul(PROTOCOL_FEE_BPS) {
        Some(p) => p,
        None => {
            return Err(KagemushaError::MathOverflow);
        },
    };
    let calculated_fee = product / BPS_DENOMINATOR;
    if calculated_fee < 1 {
        Ok(1)
    } else {
        Ok(calculated_fee)
    }
}

/// One account that the swap call may touch, and how.
#[derive(Clone, Copy, Debug)]
pub struct AccountMeta {
    pub pubkey: Key,
    pub is_signer: bool,
    pub is_writable: bool,
}

/// The delegated call to the swap service.
#[derive(Clone, Debug)]
pub struct SwapInstruction {
    pub program_id: Key,
    pub accounts: Vec<AccountMeta>,
    /// The caller's route payload, passed on unread.
    pub data: Vec<u8>,
}

/// What a rebalance hands to the host: the fee transfer, then the swap call,
/// both signed as the vault's custody authority.
#[derive(Clone, Debug)]
pub struct RebalancePlan {
    pub fee: u64,
    /// What is left of `amount_in` for the swap.
    pub swap_amount: u64,
    pub fee_transfer: Transfer,
    pub swap: SwapInstruction,
    pub signer_seeds: Vec<Vec<u8>>,
}

/// What a rebalance reads and may write.
pub struct Rebalance {
    pub strategy_key: Key,
    pub strategy: StrategyVault,
    /// The caller, who signs.
    pub owner: Key,
    pub jupiter_program: Key,
    pub jupiter_event_authority: Key,
    /// The custody account of the asset swapped in.
    pub vault_token_in: TokenAccount,
    /// The custody account of the asset swapped out.
    pub vault_token_out: TokenAccount,
    /// Where the fee goes.
    pub protocol_fee_account: Key,
    /// The caller's destination account.
    pub user_token_account: Key,
    pub token_program: Key,
    pub mint_in: Key,
    pub mint_out: Key,
    /// The program's fixed identities.
    pub pinned: Pinned,
    /// The clock's time.
    pub now: i64,
}

/// The first check that a rebalance fails, if any, in the order they are made.
pub open spec fn rebalance_error(
    ctx: Rebalance,
    amount_in: u64,
    minimum_amount_out: u64,
    route_len: int,
) -> Option<KagemushaError> {
    if ctx.protocol_fee_account@ != ctx.pinned.treasury@ {
        Some(KagemushaError::InvalidFeeAccount)
    } else if ctx.strategy.owner@ != ctx.owner@ {
        Some(KagemushaError::Unauthorized)
    } else if ctx.jupiter_program@ != ctx.pinned.swap_program@ {
        Some(KagemushaError::ConstraintAddress)
    } else if ctx.jupiter_event_authority@ != ctx.pinned.event_authority@ {
        Some(KagemushaError::ConstraintAddress)
    } else if ctx.vault_token_in.mint@ != ctx.mint_in@ || ctx.vault_token_out.mint@ != ctx.mint_out@ {
        Some(KagemushaError::MintMismatch)
    } else if !ctx.strategy.is_active {
        Some(KagemushaError::StrategyInactive)
    } else if amount_in == 0 || minimum_amount_out == 0 || ctx.vault_token_in.amount < amount_in {
        Some(KagemushaError::InsufficientFunds)
    } else if route_len == 0 || route_len > MAX_ROUTE_DATA_LEN {
        Some(KagemushaError::InvalidRouteData)
    } else if amount_in * PROTOCOL_FEE_BPS > u64::MAX {
        Some(KagemushaError::MathOverflow)
    } else if amount_in <= fee_of(amount_in as int) {
        Some(KagemushaError::InsufficientFunds)
    } else if ctx.strategy.fees_collected + fee_of(amount_in as int) > u64::MAX {
        Some(KagemushaError::MathOverflow)
    } else {
        None
    }
}

pub open spec fn meta(pubkey: Key, is_signer: bool, is_writable: bool) -> AccountMeta {
    AccountMeta { pubkey, is_signer, is_writable }
}

/// The accounts handed to the swap call, in order.
pub open spec fn swap_accounts(ctx: Rebalance) -> Seq<AccountMeta> {
    seq![
        meta(ctx.jupiter_program, false, false),
        meta(ctx.jupiter_event_authority, false, false),
        meta(ctx.vault_token_in.key, true, true),
        meta(ctx.vault_token_out.key, true, true),
        meta(ctx.owner, true, true),
        meta(ctx.user_token_account, false, true),
        meta(ctx.mint_in, false, false),
        meta(ctx.mint_out, false, false),
        meta(ctx.token_program, false, false),
    ]
}

fn swap_account_list(ctx: &Rebalance) -> (r: Vec<AccountMeta>)
    ensures
        r@ == swap_accounts(*ctx),
{
    let r = vec![
        AccountMeta { pubkey: ctx.jupiter_program, is_signer: false, is_writable: false },
        AccountMeta { pubkey: ctx.jupiter_event_authority, is_signer: false, is_writable: false },
        AccountMeta { pubkey: ctx.vault_token_in.key, is_signer: true, is_writable: true },
        AccountMeta { pubkey: ctx.vault_token_out.key, is_signer: true, is_writable: true },
        AccountMeta { pubkey: ctx.owner, is_signer: true, is_writable: true },
        AccountMeta { pubkey: ctx.user_token_account, is_signer: false, is_writable: true },
        AccountMeta { pubkey: ctx.mint_in, is_signer: false, is_writable: false },
        AccountMeta { pubkey: ctx.mint_out, is_signer: false, is_writable: false },
        AccountMeta { pubkey: ctx.token_program, is_signer: false, is_writable: false },
    ];
    proof {
        assert(r@ =~= swap_accounts(*ctx));
    }
    r
}

/// The handler's contract: `o` before the call, `f` after it, `r` its result.
pub open spec fn rebalanced(
    o: Rebalance,
    f: Rebalance,
    amount_in: u64,
    minimum_amount_out: u64,
    route_data: Seq<u8>,
    r: Result<RebalancePlan, KagemushaError>,
) -> bool {
    &&& (r is Ok <==> rebalance_error(o, amount_in, minimum_amount_out, route_data.len() as int)
        is None)
    &&& (r matches Err(e) ==> Some(e) == rebalance_error(
        o,
        amount_in,
        minimum_amount_out,
        route_data.len() as int,
    ) && f == o)
    &&& (r matches Ok(plan) ==> {
        &&& plan.fee == fee_of(amount_in as int)
        &&& plan.swap_amount == amount_in - plan.fee
        &&& f == (Rebalance {
            strategy: StrategyVault {
                fees_collected: (o.strategy.fees_collected + plan.fee) as u64,
                last_rebalance: o.now,
                ..o.strategy
            },
            ..o
        })
        &&& plan.fee_transfer.from == o.vault_token_in.key
        &&& plan.fee_transfer.to == o.protocol_fee_account
        &&& plan.fee_transfer.authority == o.strategy_key
        &&& plan.fee_transfer.amount == plan.fee
        &&& plan.fee_transfer.signer_seeds.deep_view() == custody_seeds(o.strategy)
        &&& plan.swap.program_id == o.pinned.swap_program
        &&& plan.swap.accounts@ == swap_accounts(o)
        &&& plan.swap.data@ == route_data
        &&& plan.signer_seeds.deep_view() == custody_seeds(o.strategy)
    })
}

/// Rebalances `amount_in` of the inbound asset: only with the pinned
/// treasury as fee account, only by the vault's owner, against the pinned
/// swap service, with a route payload of 1 to 1200 bytes. The fee is recorded in the vault with the time, and the fee
/// transfer to the treasury and the swap call with the payload are handed
/// back to be carried out in that order. `minimum_amount_out` must be
/// positive; holding the swap to it is the swap service's part.
pub fn handler(
    ctx: &mut Rebalance,
    amount_in: u64,
    minimum_amount_out: u64,
    route_data: Vec<u8>,
) -> (r: Result<RebalancePlan, KagemushaError>)
    ensures
        rebalanced(*old(ctx), *final(ctx), amount_in, minimum_amount_out, route_data@, r),
{
    if ctx.protocol_fee_account != ctx.pinned.treasury {
        return Err(KagemushaError::InvalidFeeAccount);
    }
    if ctx.strategy.owner != ctx.owner {
        return Err(KagemushaError::Unauthorized);
    }
    if ctx.jupiter_program != ctx.pinned.swap_program {
        return Err(KagemushaError::ConstraintAddress);
    }
    if ctx.jupiter_event_authority != ctx.pinned.event_authority {
        return Err(KagemushaError::ConstraintAddress);
    }
    if ctx.vault_token_in.mint != ctx.mint_in || ctx.vault_token_out.mint != ctx.mint_out {
        return Err(KagemushaError::MintMismatch);
    }
    if !ctx.strategy.is_active {
        return Err(KagemushaError::StrategyInactive);
    }
    if amount_in == 0 || minimum_amount_out == 0 || ctx.vault_token_in.amount < amount_in {
        return Err(KagemushaError::InsufficientFunds);
    }
    if route_data.len() == 0 || route_data.len() > MAX_ROUTE_DATA_LEN {
        return Err(KagemushaError::InvalidRouteData);
    }
    let fee = match protocol_fee(amount_in) {
        Ok(f) => f,
        Err(e) => {
            return Err(e);
        },
    };
    if amount_in <= fee {
        return Err(KagemushaError::InsufficientFunds);
    }
    let swap_amount = amount_in - fee;
    let fees_collected = match ctx.strategy.fees_collected.checked_add(fee) {
        Some(v) => v,
        None => {
            return Err(KagemushaError::MathOverflow);
        },
    };
    let signer_seeds = custody_seed_list(&ctx.strategy);
    let accounts = swap_account_list(ctx);
    ctx.strategy.fees_collected = fees_collected;
    ctx.strategy.last_rebalance = ctx.now;
    let fee_transfer = Transfer {
        from: ctx.vault_token_in.key,
        to: ctx.protocol_fee_account,
        authority: ctx.strategy_key,
        amount: fee,
        signer_seeds: signer_seeds.clone(),
    };
    let swap = SwapInstruction { program_id: ctx.pinned.swap_program, accounts, data: route_data };
    Ok(RebalancePlan { fee, swap_amount, fee_transfer, swap, signer_seeds })
}

/// The rebalance's result once the swap call has returned.
pub fn swap_outcome(succeeded: bool) -> (r: Result<(), KagemushaError>)
    ensures
        r is Ok <==> succeeded,
        r matches Err(e) ==> e == KagemushaError::SwapExecutionFailed,
{
    if succeeded {
        Ok(())
    } else {
        Err(KagemushaError::SwapExecutionFailed)
    }
}

/// A rebalance whose fee account is not the pinned treasury fails with
/// `InvalidFeeAccount`, whoever calls, and changes nothing.
pub proof fn lemma_fee_account_is_pinned(
    o: Rebalance,
    f: Rebalance,
    amount_in: u64,
    minimum_amount_out: u64,
    route_data: Seq<u8>,
    r: Result<RebalancePlan, KagemushaError>,
)
    requires
        rebalanced(o, f, amount_in, minimum_amount_out, route_data, r),
        o.protocol_fee_account@ != o.pinned.treasury@,
    ensures
        r matches Err(e) && e == KagemushaError::InvalidFeeAccount,
        f == o,
{
}

/// A caller other than the vault's owner fails every rebalance, and nothing
/// changes; the fault is decided before any balance or vault state is read:
/// `Unauthorized`, or `InvalidFeeAccount` where the fee account is not the
/// treasury.
pub proof fn lemma_only_owner_rebalances(
    o: Rebalance,
    f: Rebalance,
    amount_in: u64,
    minimum_amount_out: u64,
    route_data: Seq<u8>,
    r: Result<RebalancePlan, KagemushaError>,
)
    requires
        rebalanced(o, f, amount_in, minimum_amount_out, route_data, r),
        o.strategy.owner@ != o.owner@,
    ensures
        r matches Err(e) && (e == KagemushaError::Unauthorized || e
            == KagemushaError::InvalidFeeAccount),
        o.protocol_fee_account@ == o.pinned.treasury@ ==> (r matches Err(e) && e
            == KagemushaError::Unauthorized),
        f == o,
{
}

} // verus!
