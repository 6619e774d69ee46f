use vstd::prelude::*;

verus! {

/// A 32-byte account identity.
#[derive(Clone, Copy, Debug)]
pub struct Key {
    pub bytes: [u8; 32],
}

impl View for Key {
    type V = Seq<u8>;

    open spec fn view(&self) -> Seq<u8> {
        self.bytes@
    }
}

impl PartialEq for Key {
    fn eq(&self, o: &Key) -> (r: bool) {
        let mut i: usize = 0;
        while i < 32
            invariant
                i <= 32,
                forall|j: int| 0 <= j < i ==> self.bytes@[j] == o.bytes@[j],
            decreases 32 - i,
        {
            if self.bytes[i] != o.bytes[i] {
                return false;
            }
            i = i + 1;
        }
        proof {
            assert(self.bytes@ =~= o.bytes@);
        }
        true
    }
}

impl vstd::std_specs::cmp::PartialEqSpecImpl for Key {
    open spec fn obeys_eq_spec() -> bool {
        true
    }

    open spec fn eq_spec(&self, o: &Key) -> bool {
        self@ == o@
    }
}

impl Eq for Key {}

impl Key {
    pub fn new(bytes: [u8; 32]) -> (r: Key)
        ensures
            r.bytes == bytes,
    {
        Key { bytes }
    }

    /// The identity's bytes as a vector.
    pub fn to_vec(&self) -> (r: Vec<u8>)
        ensures
            r@ == self@,
    {
        let mut r: Vec<u8> = Vec::new();
        let mut i: usize = 0;
        while i < 32
            invariant
                i <= 32,
                r@ == self@.take(i as int),
            decreases 32 - i,
        {
            r.push(self.bytes[i]);
            i = i + 1;
            proof {
                assert(r@ =~= self@.take(i as int));
            }
        }
        proof {
            assert(self@.take(32) =~= self@);
        }
        r
    }
}

/// Bytes of a stored record's header, in front of its fields.
pub const DISCRIMINATOR_LEN: usize = 8;

/// The record of one strategy vault, one per (owner, name) pair.
#[derive(Clone, Copy, Debug)]
pub struct StrategyVault {
    /// The creator: sole authority for rebalance.
    pub owner: Key,
    /// The name's bytes, padded with zeros.
    pub name: [u8; 32],
    /// 0 = Sniper, 1 = Fortress, 2 = Wave.
    pub strategy_type: u8,
    /// Target weights in basis points; the active slots sum to 10000.
    pub target_weights: [u16; 10],
    /// The number of active weight slots.
    pub num_tokens: u8,
    pub is_active: bool,
    /// Running total of custodied value.
    pub tvl: u64,
    /// Accumulated protocol fees.
    pub fees_collected: u64,
    /// Time of the latest rebalance, or of creation.
    pub last_rebalance: i64,
    /// The salt that re-derives the vault's custody authority.
    pub bump: u8,
}

/// One user's claim against one vault.
#[derive(Clone, Copy, Debug)]
pub struct UserPosition {
    pub vault: Key,
    pub user: Key,
    /// Claim balance, one share per deposited base unit.
    pub lp_shares: u64,
    /// Time of the latest deposit.
    pub deposit_time: i64,
    /// Cumulative deposited value.
    pub entry_value: u64,
    /// The salt of the position record's own address.
    pub bump: u8,
}

/// Stored size of a vault record.
pub const STRATEGY_VAULT_LEN: usize = DISCRIMINATOR_LEN + 32 + 32 + 1 + 20 + 1 + 1 + 8 + 8 + 8 + 1;

/// Stored size of a position record.
pub const USER_POSITION_LEN: usize = DISCRIMINATOR_LEN + 32 + 32 + 8 + 8 + 8 + 1;

/// `n` is where the stored name ends: before the first zero byte, or at the end.
pub open spec fn is_name_end(s: Seq<u8>, n: int) -> bool {
    &&& 0 <= n <= s.len()
    &&& forall|i: int| 0 <= i < n ==> s[i] != 0
    &&& n < s.len() ==> s[n] == 0
}

/// The name held in a zero-padded array.
pub open spec fn trimmed_name(s: Seq<u8>) -> Seq<u8> {
    s.take(choose|n: int| is_name_end(s, n))
}

pub proof fn lemma_name_end_unique(s: Seq<u8>, n: int, m: int)
    requires
        is_name_end(s, n),
        is_name_end(s, m),
    ensures
        n == m,
{
    if n < m {
        assert(s[n] != 0);
    } else if m < n {
        assert(s[m] != 0);
    }
}

/// The stored name ends at `n`, so the name is its first `n` bytes.
pub proof fn lemma_trimmed_name(s: Seq<u8>, n: int)
    requires
        is_name_end(s, n),
    ensures
        trimmed_name(s) == s.take(n),
{
    let m = choose|m: int| is_name_end(s, m);
    lemma_name_end_unique(s, n, m);
}

/// Relies on String::from_utf8_lossy: valid UTF-8 is decoded as it stands.
pub uninterp spec fn utf8_lossy(b: Seq<u8>) -> Seq<char>;

/// Relies on String::from_utf8_lossy, which decodes valid UTF-8 and replaces
/// each invalid sequence with U+FFFD.
#[verifier::external_body]
fn text_of_bytes(b: &[u8]) -> (r: String)
    ensures
        r@ == utf8_lossy(b@),
        vstd::utf8::valid_utf8(b@) ==> r@ == vstd::utf8::decode_utf8(b@),
{
    String::from_utf8_lossy(b).to_string()
}

/// Where the stored name ends.
pub fn name_end(name: &[u8; 32]) -> (n: usize)
    ensures
        is_name_end(name@, n as int),
{
    let mut i: usize = 0;
    while i < 32
        invariant
            i <= 32,
            forall|j: int| 0 <= j < i ==> name@[j] != 0,
        decreases 32 - i,
    {
        if name[i] == 0 {
            return i;
        }
        i = i + 1;
    }
    32
}

/// The name's bytes, without the padding.
pub fn name_bytes(name: &[u8; 32]) -> (r: Vec<u8>)
    ensures
        r@ == trimmed_name(name@),
{
    let n = name_end(name);
    let mut r: Vec<u8> = Vec::new();
    let mut i: usize = 0;
    while i < n
        invariant
            i <= n <= 32,
            r@ == name@.take(i as int),
        decreases n - i,
    {
        r.push(name[i]);
        i = i + 1;
        proof {
            assert(r@ =~= name@.take(i as int));
        }
    }
    proof {
        lemma_trimmed_name(name@, n as int);
    }
    r
}

/// `n` is where the stored name ends for address derivation: after its last
/// non-zero byte, so that only the zero padding is dropped.
pub open spec fn is_seed_end(s: Seq<u8>, n: int) -> bool {
    &&& 0 <= n <= s.len()
    &&& forall|i: int| n <= i < s.len() ==> s[i] == 0
    &&& n > 0 ==> s[n - 1] != 0
}

/// The name, as its seed, held in a zero-padded array.
pub open spec fn seed_name(s: Seq<u8>) -> Seq<u8> {
    s.take(choose|n: int| is_seed_end(s, n))
}

pub proof fn lemma_seed_end_unique(s: Seq<u8>, n: int, m: int)
    requires
        is_seed_end(s, n),
        is_seed_end(s, m),
    ensures
        n == m,
{
    if n < m {
        assert(s[m - 1] == 0);
    } else if m < n {
        assert(s[n - 1] == 0);
    }
}

/// The stored name's padding starts at `n`, so its seed is its first `n` bytes.
pub proof fn lemma_seed_name(s: Seq<u8>, n: int)
    requires
        is_seed_end(s, n),
    ensures
        seed_name(s) == s.take(n),
{
    let m = choose|m: int| is_seed_end(s, m);
    lemma_seed_end_unique(s, n, m);
}

/// Where the stored name's zero padding starts.
pub fn seed_end(name: &[u8; 32]) -> (n: usize)
    ensures
        is_seed_end(name@, n as int),
{
    let mut n: usize = 32;
    while n > 0 && name[n - 1] == 0
        invariant
            n <= 32,
            forall|i: int| n <= i < 32 ==> name@[i] == 0,
        decreases n,
    {
        n = n - 1;
    }
    n
}

/// The name's bytes as used in the vault's seeds: the stored name without
/// its zero padding.
pub fn seed_name_bytes(name: &[u8; 32]) -> (r: Vec<u8>)
    ensures
        r@ == seed_name(name@),
{
    let n = seed_end(name);
    let mut r: Vec<u8> = Vec::new();
    let mut i: usize = 0;
    while i < n
        invariant
            i <= n <= 32,
            r@ == name@.take(i as int),
        decreases n - i,
    {
        r.push(name[i]);
        i = i + 1;
        proof {
            assert(r@ =~= name@.take(i as int));
        }
    }
    proof {
        lemma_seed_name(name@, n as int);
    }
    r
}

impl StrategyVault {
    /// The name as text, up to the first zero byte.
    pub fn name_as_str(&self) -> (r: String)
        ensures
            r@ == utf8_lossy(trimmed_name(self.name@)),
            vstd::utf8::valid_utf8(trimmed_name(self.name@)) ==> r@ == vstd::utf8::decode_utf8(
                trimmed_name(self.name@),
            ),
    {
        let b = name_bytes(&self.name);
        text_of_bytes(b.as_slice())
    }
}

} // verus!

verus! {

/// A movement of funds that the host carries out for an operation.
#[derive(Clone, Debug)]
pub struct Transfer {
    pub from: Key,
    pub to: Key,
    /// The identity in whose name the funds move.
    pub authority: Key,
    pub amount: u64,
    /// Seeds, ending in their bump, that let the program sign as `authority`;
    /// empty where `authority` signs for itself.
    pub signer_seeds: Vec<Vec<u8>>,
}

/// The shares that a position holds, none where there is no record.
pub open spec fn shares_of(p: Option<UserPosition>) -> int {
    match p {
        Some(p) => p.lp_shares as int,
        None => 0,
    }
}

/// The value deposited into a position, none where there is no record.
pub open spec fn entry_of(p: Option<UserPosition>) -> int {
    match p {
        Some(p) => p.entry_value as int,
        None => 0,
    }
}

} // verus!

verus! {

/// What the ledger reads of a token account.
#[derive(Clone, Copy, Debug)]
pub struct TokenAccount {
    /// The account's own address.
    pub key: Key,
    /// The asset it holds.
    pub mint: Key,
    /// The authority that may move its balance.
    pub owner: Key,
    /// Its balance.
    pub amount: u64,
}

} // verus!
