use vstd::prelude::*;
use anchor_lang::prelude::Pubkey;
use crate::state::{seed_name, seed_name_bytes, Key, StrategyVault};
use crate::errors::KagemushaError;

verus! {

/// The address that `Pubkey::create_program_address` computes from the seeds
/// and the program id, or `None` where it refuses them.
pub uninterp spec fn program_address(seeds: Seq<Seq<u8>>, program_id: Seq<u8>) -> Option<Seq<u8>>;

/// Relies on Pubkey::create_program_address: a hash of the seeds and the
/// program id, refused where it lies on the curve or the seeds are too long.
#[verifier::external_body]
fn create_address(seeds: &Vec<Vec<u8>>, program_id: &Key) -> (r: Option<Key>)
    ensures
        program_address(seeds.deep_view(), program_id@) == (match r {
            Some(k) => Some(k@),
            None => None,
        }),
{
    let refs: Vec<&[u8]> = seeds.iter().map(|s| s.as_slice()).collect();
    Pubkey::create_program_address(&refs, &Pubkey::new_from_array(program_id.bytes))
        .ok()
        .map(|k| Key { bytes: k.to_bytes() })
}

/// Relies on Pubkey::try_find_program_address: it appends a one-byte bump to
/// the seeds, tries the bumps from 255 down to 1, and returns the first that
/// `create_program_address` accepts, with its address.
#[verifier::external_body]
fn find_address(seeds: &Vec<Vec<u8>>, program_id: &Key) -> (r: Option<(Key, u8)>)
    ensures
        match r {
            Some((k, b)) => is_found(seeds.deep_view(), program_id@, k@, b),
            None => none_found(seeds.deep_view(), program_id@),
        },
{
    let refs: Vec<&[u8]> = seeds.iter().map(|s| s.as_slice()).collect();
    Pubkey::try_find_program_address(&refs, &Pubkey::new_from_array(program_id.bytes))
        .map(|(k, b)| (Key { bytes: k.to_bytes() }, b))
}

/// The seeds with a one-byte bump appended.
pub open spec fn with_bump(seeds: Seq<Seq<u8>>, bump: u8) -> Seq<Seq<u8>> {
    seeds.push(seq![bump])
}

/// `bump` is the largest bump, from 1 up, for which the seeds derive an
/// address, and `key` is that address.
pub open spec fn is_found(seeds: Seq<Seq<u8>>, program_id: Seq<u8>, key: Seq<u8>, bump: u8) -> bool {
    &&& 1 <= bump
    &&& program_address(with_bump(seeds, bump), program_id) == Some(key)
    &&& forall|c: u8| bump < c ==> (#[trigger] program_address(with_bump(seeds, c), program_id)) is None
}

/// No bump from 1 up lets the seeds derive an address.
pub open spec fn none_found(seeds: Seq<Seq<u8>>, program_id: Seq<u8>) -> bool {
    forall|c: u8| 1 <= c ==> (#[trigger] program_address(with_bump(seeds, c), program_id)) is None
}

/// The seeds derive `key`, with some bump.
pub open spec fn derives(seeds: Seq<Seq<u8>>, program_id: Seq<u8>, key: Seq<u8>) -> bool {
    exists|b: u8| is_found(seeds, program_id, key, b)
}

/// A derivation is a function of its seeds: one address and one bump at most.
pub proof fn lemma_found_unique(
    seeds: Seq<Seq<u8>>,
    program_id: Seq<u8>,
    k1: Seq<u8>,
    b1: u8,
    k2: Seq<u8>,
    b2: u8,
)
    requires
        is_found(seeds, program_id, k1, b1),
        is_found(seeds, program_id, k2, b2),
    ensures
        k1 == k2,
        b1 == b2,
{
    if b1 < b2 {
        assert(program_address(with_bump(seeds, b2), program_id) is None);
    } else if b2 < b1 {
        assert(program_address(with_bump(seeds, b1), program_id) is None);
    }
}

/// A byte vector's deep view is its view.
proof fn lemma_bytes_deep_view(v: Vec<u8>)
    ensures
        v.deep_view() == v@,
{
    assert(v.deep_view() =~= v@);
}

/// Seed tag of a vault's own address: "strategy".
pub open spec fn strategy_tag() -> Seq<u8> {
    seq![115u8, 116u8, 114u8, 97u8, 116u8, 101u8, 103u8, 121u8]
}

/// Seed tag of a position's address: "position".
pub open spec fn position_tag() -> Seq<u8> {
    seq![112u8, 111u8, 115u8, 105u8, 116u8, 105u8, 111u8, 110u8]
}

/// Seed tag of a vault's native-currency account: "vault_sol".
pub open spec fn vault_sol_tag() -> Seq<u8> {
    seq![118u8, 97u8, 117u8, 108u8, 116u8, 95u8, 115u8, 111u8, 108u8]
}

pub open spec fn strategy_seeds(owner: Seq<u8>, name: Seq<u8>) -> Seq<Seq<u8>> {
    seq![strategy_tag(), owner, name]
}

pub open spec fn position_seeds(strategy: Seq<u8>, user: Seq<u8>) -> Seq<Seq<u8>> {
    seq![position_tag(), strategy, user]
}

pub open spec fn vault_sol_seeds(strategy: Seq<u8>) -> Seq<Seq<u8>> {
    seq![vault_sol_tag(), strategy]
}

fn strategy_tag_bytes() -> (r: Vec<u8>)
    ensures
        r@ == strategy_tag(),
{
    let r: Vec<u8> = vec![115u8, 116u8, 114u8, 97u8, 116u8, 101u8, 103u8, 121u8];
    proof {
        assert(r@ =~= strategy_tag());
    }
    r
}

fn position_tag_bytes() -> (r: Vec<u8>)
    ensures
        r@ == position_tag(),
{
    let r: Vec<u8> = vec![112u8, 111u8, 115u8, 105u8, 116u8, 105u8, 111u8, 110u8];
    proof {
        assert(r@ =~= position_tag());
    }
    r
}

fn vault_sol_tag_bytes() -> (r: Vec<u8>)
    ensures
        r@ == vault_sol_tag(),
{
    let r: Vec<u8> = vec![118u8, 97u8, 117u8, 108u8, 116u8, 95u8, 115u8, 111u8, 108u8];
    proof {
        assert(r@ =~= vault_sol_tag());
    }
    r
}

/// The seeds of a vault's address: the tag, the owner and the name.
pub fn strategy_seed_list(owner: &Key, name: &[u8]) -> (r: Vec<Vec<u8>>)
    ensures
        r.deep_view() == strategy_seeds(owner@, name@),
{
    let mut n: Vec<u8> = Vec::new();
    let mut i: usize = 0;
    while i < name.len()
        invariant
            i <= name@.len(),
            n@ == name@.take(i as int),
        decreases name@.len() - i,
    {
        n.push(name[i]);
        i = i + 1;
        proof {
            assert(n@ =~= name@.take(i as int));
        }
    }
    proof {
        assert(name@.take(name@.len() as int) =~= name@);
    }
    let t = strategy_tag_bytes();
    let o = owner.to_vec();
    proof {
        lemma_bytes_deep_view(t);
        lemma_bytes_deep_view(o);
        lemma_bytes_deep_view(n);
    }
    let r = vec![t, o, n];
    proof {
        assert(r.deep_view() =~= strategy_seeds(owner@, name@));
    }
    r
}

/// The seeds of a position's address: the tag, the vault and the user.
pub fn position_seed_list(strategy: &Key, user: &Key) -> (r: Vec<Vec<u8>>)
    ensures
        r.deep_view() == position_seeds(strategy@, user@),
{
    let t = position_tag_bytes();
    let s = strategy.to_vec();
    let u = user.to_vec();
    proof {
        lemma_bytes_deep_view(t);
        lemma_bytes_deep_view(s);
        lemma_bytes_deep_view(u);
    }
    let r = vec![t, s, u];
    proof {
        assert(r.deep_view() =~= position_seeds(strategy@, user@));
    }
    r
}

/// The seeds of a vault's native-currency account: the tag and the vault.
pub fn vault_sol_seed_list(strategy: &Key) -> (r: Vec<Vec<u8>>)
    ensures
        r.deep_view() == vault_sol_seeds(strategy@),
{
    let t = vault_sol_tag_bytes();
    let s = strategy.to_vec();
    proof {
        lemma_bytes_deep_view(t);
        lemma_bytes_deep_view(s);
    }
    let r = vec![t, s];
    proof {
        assert(r.deep_view() =~= vault_sol_seeds(strategy@));
    }
    r
}

/// The seeds with the bump appended, as handed to a transfer signed by the
/// derived authority.
pub fn signer_seed_list(seeds: Vec<Vec<u8>>, bump: u8) -> (r: Vec<Vec<u8>>)
    ensures
        r.deep_view() == with_bump(seeds.deep_view(), bump),
{
    let mut r = seeds;
    let b: Vec<u8> = vec![bump];
    proof {
        assert(b@ =~= seq![bump]);
        lemma_bytes_deep_view(b);
    }
    r.push(b);
    proof {
        assert(r.deep_view() =~= with_bump(seeds.deep_view(), bump));
    }
    r
}

/// Derives the custody address of some seeds and the bump that re-derives it.
pub fn derive_address(seeds: &Vec<Vec<u8>>, program_id: &Key) -> (r: Option<(Key, u8)>)
    ensures
        match r {
            Some((k, b)) => is_found(seeds.deep_view(), program_id@, k@, b),
            None => forall|k: Seq<u8>| !derives(seeds.deep_view(), program_id@, k),
        },
{
    find_address(seeds, program_id)
}

/// Checks that `key` is the address that the seeds derive, and gives its bump.
pub fn check_address(seeds: &Vec<Vec<u8>>, program_id: &Key, key: &Key) -> (r: Result<
    u8,
    KagemushaError,
>)
    ensures
        match r {
            Ok(b) => is_found(seeds.deep_view(), program_id@, key@, b),
            Err(e) => e == KagemushaError::ConstraintSeeds && !derives(
                seeds.deep_view(),
                program_id@,
                key@,
            ),
        },
{
    match find_address(seeds, program_id) {
        Some((k, b)) => {
            if k == *key {
                Ok(b)
            } else {
                proof {
                    assert forall|c: u8| !is_found(seeds.deep_view(), program_id@, key@, c) by {
                        if is_found(seeds.deep_view(), program_id@, key@, c) {
                            lemma_found_unique(seeds.deep_view(), program_id@, k@, b, key@, c);
                        }
                    }
                }
                Err(KagemushaError::ConstraintSeeds)
            }
        },
        None => Err(KagemushaError::ConstraintSeeds),
    }
}

/// Re-derives an authority from seeds that already end in their bump: the
/// identity in whose name a transfer signed with these seeds moves funds.
pub fn authority_of(signer_seeds: &Vec<Vec<u8>>, program_id: &Key) -> (r: Option<Key>)
    ensures
        program_address(signer_seeds.deep_view(), program_id@) == (match r {
            Some(k) => Some(k@),
            None => None,
        }),
{
    create_address(signer_seeds, program_id)
}

/// The seeds, ending in the stored bump, with which the program signs as a
/// vault's custody authority.
pub open spec fn custody_seeds(v: StrategyVault) -> Seq<Seq<u8>> {
    with_bump(strategy_seeds(v.owner@, seed_name(v.name@)), v.bump)
}

/// Builds the seeds with which the program signs as the vault's custody
/// authority: the owner, the stored name and the stored bump.
pub fn custody_seed_list(v: &StrategyVault) -> (r: Vec<Vec<u8>>)
    ensures
        r.deep_view() == custody_seeds(*v),
{
    let name = seed_name_bytes(&v.name);
    let seeds = strategy_seed_list(&v.owner, name.as_slice());
    signer_seed_list(seeds, v.bump)
}

/// The identity that the vault's custody seeds re-derive.
pub fn custody_authority(v: &StrategyVault, program_id: &Key) -> (r: Option<Key>)
    ensures
        program_address(custody_seeds(*v), program_id@) == (match r {
            Some(k) => Some(k@),
            None => None,
        }),
{
    let seeds = custody_seed_list(v);
    authority_of(&seeds, program_id)
}

} // verus!
