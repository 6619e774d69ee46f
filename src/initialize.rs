use vstd::prelude::*;
use crate::authority::{
    check_address,
    custody_seeds,
    derives,
    is_found,
    program_address,
    strategy_seed_list,
    strategy_seeds,
};
use crate::errors::KagemushaError;
use crate::state::{is_seed_end, lemma_seed_name, seed_name, Key, StrategyVault};

verus! {

/// The most weight slots a vault holds.
pub const MAX_TOKENS: usize = 10;

/// The longest name, in bytes.
pub const MAX_NAME_LEN: usize = 32;

/// The sum that the weights must reach: 100% in basis points.
pub const TOTAL_WEIGHT: u32 = 10000;

/// What creating a vault reads and may write.
pub struct InitializeStrategy {
    /// The program that owns the records.
    pub program_id: Key,
    /// Address of the vault record to create.
    pub strategy_key: Key,
    /// The record stored at that address, if there is one.
    pub strategy: Option<StrategyVault>,
    /// The creator, who signs.
    pub owner: Key,
    /// The clock's time.
    pub now: i64,
}

pub open spec fn weight_sum(w: Seq<u16>) -> int
    decreases w.len(),
{
    if w.len() == 0 {
        0
    } else {
        weight_sum(w.drop_last()) + w.last()
    }
}

/// The name's bytes padded with zeros to the stored width.
pub open spec fn padded_name(b: Seq<u8>) -> Seq<u8> {
    Seq::new(32, |i: int| if i < b.len() { b[i] } else { 0u8 })
}

/// The weights padded with zeros to the stored width.
pub open spec fn padded_weights(w: Seq<u16>) -> Seq<u16> {
    Seq::new(10, |i: int| if i < w.len() { w[i] } else { 0u16 })
}

/// `v` is the vault record that a creation with these arguments writes.
pub open spec fn is_created_vault(
    v: StrategyVault,
    owner: Key,
    name: Seq<u8>,
    strategy_type: u8,
    weights: Seq<u16>,
    now: i64,
) -> bool {
    &&& v.owner == owner
    &&& v.name@ == padded_name(name)
    &&& v.strategy_type == strategy_type
    &&& v.target_weights@ == padded_weights(weights)
    &&& v.num_tokens == weights.len()
    &&& v.is_active
    &&& v.tvl == 0
    &&& v.fees_collected == 0
    &&& v.last_rebalance == now
}

/// The first check that a creation fails, if any, in the order they are made.
pub open spec fn create_error(
    ctx: InitializeStrategy,
    name: Seq<u8>,
    strategy_type: u8,
    weights: Seq<u16>,
) -> Option<KagemushaError> {
    if name.len() > MAX_NAME_LEN {
        Some(KagemushaError::NameTooLong)
    } else if strategy_type > 2 {
        Some(KagemushaError::InvalidStrategyType)
    } else if weights.len() > MAX_TOKENS || weight_sum(weights) != TOTAL_WEIGHT {
        Some(KagemushaError::InvalidWeightSum)
    } else if !derives(strategy_seeds(ctx.owner@, name), ctx.program_id@, ctx.strategy_key@) {
        Some(KagemushaError::ConstraintSeeds)
    } else if ctx.strategy is Some {
        Some(KagemushaError::AccountAlreadyInitialized)
    } else {
        None
    }
}

/// Sums the weights, or gives `None` where there are more than fit a vault.
fn sum_weights(w: &Vec<u16>) -> (r: Option<u32>)
    ensures
        match r {
            Some(s) => w@.len() <= MAX_TOKENS && s == weight_sum(w@),
            None => w@.len() > MAX_TOKENS,
        },
{
    if w.len() > MAX_TOKENS {
        return None;
    }
    let mut s: u32 = 0;
    let mut i: usize = 0;
    while i < w.len()
        invariant
            i <= w@.len() <= MAX_TOKENS,
            s == weight_sum(w@.take(i as int)),
            s <= i * 65535,
        decreases w@.len() - i,
    {
        proof {
            assert(w@.take(i as int + 1).drop_last() =~= w@.take(i as int));
        }
        s = s + w[i] as u32;
        i = i + 1;
    }
    proof {
        assert(w@.take(w@.len() as int) =~= w@);
    }
    Some(s)
}

/// The handler's contract: `o` before the call, `f` after it, `r` its result.
pub open spec fn created(
    o: InitializeStrategy,
    f: InitializeStrategy,
    name: Seq<char>,
    strategy_type: u8,
    target_weights: Seq<u16>,
    r: Result<(), KagemushaError>,
) -> bool {
    &&& (r is Ok <==> create_error(o, vstd::utf8::encode_utf8(name), strategy_type, target_weights) is None)
    &&& (r matches Err(e) ==> Some(e) == create_error(
        o,
        vstd::utf8::encode_utf8(name),
        strategy_type,
        target_weights,
    ) && f == o)
    &&& (r is Ok ==> {
        &&& f.program_id == o.program_id
        &&& f.strategy_key == o.strategy_key
        &&& f.owner == o.owner
        &&& f.now == o.now
        &&& f.strategy matches Some(v)
        &&& is_created_vault(
            v,
            o.owner,
            vstd::utf8::encode_utf8(name),
            strategy_type,
            target_weights,
            o.now,
        )
        &&& is_found(
            strategy_seeds(o.owner@, vstd::utf8::encode_utf8(name)),
            o.program_id@,
            o.strategy_key@,
            v.bump,
        )
    })
}

/// Creates the vault record for (owner, name): the name at most 32 bytes, the
/// type one of 0, 1, 2, at most 10 weights summing to 10000,
/// the record's address the one that the owner and name derive, and no record
/// there yet.
pub fn handler(
    ctx: &mut InitializeStrategy,
    name: String,
    strategy_type: u8,
    target_weights: Vec<u16>,
) -> (r: Result<(), KagemushaError>)
    ensures
        created(*old(ctx), *final(ctx), name@, strategy_type, target_weights@, r),
{
    let name_slice = name.as_str().as_bytes();
    if name_slice.len() > MAX_NAME_LEN {
        return Err(KagemushaError::NameTooLong);
    }
    if strategy_type > 2 {
        return Err(KagemushaError::InvalidStrategyType);
    }
    let weight_sum = match sum_weights(&target_weights) {
        Some(s) => s,
        None => {
            return Err(KagemushaError::InvalidWeightSum);
        },
    };
    if weight_sum != TOTAL_WEIGHT {
        return Err(KagemushaError::InvalidWeightSum);
    }
    let seeds = strategy_seed_list(&ctx.owner, name_slice);
    let bump = match check_address(&seeds, &ctx.program_id, &ctx.strategy_key) {
        Ok(b) => b,
        Err(e) => {
            return Err(e);
        },
    };
    if ctx.strategy.is_some() {
        return Err(KagemushaError::AccountAlreadyInitialized);
    }
    let mut name_bytes = [0u8; 32];
    let mut i: usize = 0;
    while i < name_slice.len()
        invariant
            name_slice@.len() <= 32,
            i <= name_slice@.len(),
            name_bytes@.len() == 32,
            forall|j: int| 0 <= j < i ==> name_bytes@[j] == name_slice@[j],
            forall|j: int| i <= j < 32 ==> name_bytes@[j] == 0,
        decreases name_slice@.len() - i,
    {
        name_bytes[i] = name_slice[i];
        i = i + 1;
    }
    let mut weights = [0u16; 10];
    let mut k: usize = 0;
    while k < target_weights.len()
        invariant
            target_weights@.len() <= 10,
            k <= target_weights@.len(),
            weights@.len() == 10,
            forall|j: int| 0 <= j < k ==> weights@[j] == target_weights@[j],
            forall|j: int| k <= j < 10 ==> weights@[j] == 0,
        decreases target_weights@.len() - k,
    {
        weights[k] = target_weights[k];
        k = k + 1;
    }
    proof {
        assert(name_bytes@ =~= padded_name(name_slice@));
        assert(weights@ =~= padded_weights(target_weights@));
    }
    ctx.strategy = Some(
        StrategyVault {
            owner: ctx.owner,
            name: name_bytes,
            strategy_type,
            target_weights: weights,
            num_tokens: target_weights.len() as u8,
            is_active: true,
            tvl: 0,
            fees_collected: 0,
            last_rebalance: ctx.now,
            bump,
        },
    );
    Ok(())
}

/// Where the name's length, the type and the number of weights are
/// acceptable, a creation fails with `InvalidWeightSum` unless the
/// weights sum to exactly 10000; at an address that derives and holds no
/// record, it then succeeds.
pub proof fn lemma_create_iff_full_weight(
    o: InitializeStrategy,
    f: InitializeStrategy,
    name: Seq<char>,
    strategy_type: u8,
    target_weights: Seq<u16>,
    r: Result<(), KagemushaError>,
)
    requires
        created(o, f, name, strategy_type, target_weights, r),
        vstd::utf8::encode_utf8(name).len() <= MAX_NAME_LEN,
        strategy_type <= 2,
        target_weights.len() <= MAX_TOKENS,
    ensures
        weight_sum(target_weights) != TOTAL_WEIGHT ==> r == Err::<(), KagemushaError>(
            KagemushaError::InvalidWeightSum,
        ),
        (derives(strategy_seeds(o.owner@, vstd::utf8::encode_utf8(name)), o.program_id@, o.strategy_key@)
            && o.strategy is None) ==> (r is Ok <==> weight_sum(target_weights) == TOTAL_WEIGHT),
{
}

/// Creating a vault where a record already stands fails and leaves that
/// record as it was.
pub proof fn lemma_create_never_overwrites(
    o: InitializeStrategy,
    f: InitializeStrategy,
    name: Seq<char>,
    strategy_type: u8,
    target_weights: Seq<u16>,
    r: Result<(), KagemushaError>,
)
    requires
        created(o, f, name, strategy_type, target_weights, r),
        o.strategy is Some,
    ensures
        r is Err,
        f == o,
{
}

/// The custody seeds stored in a newly created vault re-derive the vault's
/// own address, where the name does not end in a zero byte: the program can
/// sign for the vault's custody with what the record keeps.
pub proof fn lemma_created_vault_signs_as_itself(
    o: InitializeStrategy,
    f: InitializeStrategy,
    name: Seq<char>,
    strategy_type: u8,
    target_weights: Seq<u16>,
    r: Result<(), KagemushaError>,
)
    requires
        created(o, f, name, strategy_type, target_weights, r),
        r is Ok,
        vstd::utf8::encode_utf8(name).len() == 0 || vstd::utf8::encode_utf8(name).last() != 0,
    ensures
        f.strategy matches Some(v) && program_address(custody_seeds(v), o.program_id@) == Some(
            o.strategy_key@,
        ),
{
    let nb = vstd::utf8::encode_utf8(name);
    let v = f.strategy->0;
    assert(is_seed_end(v.name@, nb.len() as int));
    lemma_seed_name(v.name@, nb.len() as int);
    assert(seed_name(v.name@) =~= nb);
}

} // verus!
