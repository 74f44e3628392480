//! Program-derived addresses: addresses computed from seeds and a program's
//! identity, for which no private key exists.

use vstd::prelude::*;
use solana_program::pubkey::Pubkey;
use solana_program::pubkey::PubkeyError;
use crate::address::Address;

verus! {

/// The most seeds one derivation takes, the nonce included.
pub const MAX_SEEDS: usize = 16;

/// The most bytes one seed holds.
pub const MAX_SEED_LEN: usize = 32;

/// Why a list of seeds derives no address.
#[derive(Clone, Copy, Debug, PartialEq, Eq, Structural)]
pub enum SeedError {
    /// Too many seeds, or one of them too long.
    MaxSeedLengthExceeded,
    /// The seeds lead to a point on the curve, which could have a private key.
    InvalidSeeds,
    /// The owner given is not allowed.
    IllegalOwner,
}

/// What `Pubkey::create_program_address` derives from seeds that fit and a
/// program's identity: the address, or `None` where the seeds lead to a point
/// on the curve.
pub uninterp spec fn derived_address(seeds: Seq<Seq<u8>>, program_id: Seq<u8>) -> Option<Seq<u8>>;

/// The seeds as sequences of bytes.
pub open spec fn seeds_view(seeds: Seq<Vec<u8>>) -> Seq<Seq<u8>> {
    Seq::new(seeds.len(), |i: int| seeds[i]@)
}

/// The seeds are few enough and short enough to be derived from.
pub open spec fn seeds_fit(seeds: Seq<Seq<u8>>) -> bool {
    &&& seeds.len() <= MAX_SEEDS
    &&& forall|i: int| 0 <= i < seeds.len() ==> (#[trigger] seeds[i]).len() <= MAX_SEED_LEN
}

/// The seeds followed by a one-byte nonce.
pub open spec fn with_bump(seeds: Seq<Seq<u8>>, bump: u8) -> Seq<Seq<u8>> {
    seeds.push(seq![bump])
}

/// `bump` is the highest nonce with which the seeds derive an address.
pub open spec fn is_canonical_bump(seeds: Seq<Seq<u8>>, program_id: Seq<u8>, bump: u8) -> bool {
    &&& bump >= 1
    &&& derived_address(with_bump(seeds, bump), program_id) is Some
    &&& forall|b: u8| bump < b ==> derived_address(with_bump(seeds, b), program_id) is None
}

/// Calls `Pubkey::create_program_address`. Seeds that do not fit are refused
/// with `MaxSeedLengthExceeded`; of seeds that fit, the result is the address
/// named by `derived_address`, or `InvalidSeeds` where there is none.
#[verifier::external_body]
pub(crate) fn create_program_address(seeds: &Vec<Vec<u8>>, program_id: &Address) -> (r: Result<
    Address,
    SeedError,
>)
    ensures
        !seeds_fit(seeds_view(seeds@)) ==> r is Err && r->Err_0
            == SeedError::MaxSeedLengthExceeded,
        seeds_fit(seeds_view(seeds@)) && derived_address(seeds_view(seeds@), program_id@) is None
            ==> r is Err && r->Err_0 == SeedError::InvalidSeeds,
        seeds_fit(seeds_view(seeds@)) && derived_address(seeds_view(seeds@), program_id@) is Some
            ==> r is Ok && r->Ok_0@ == derived_address(seeds_view(seeds@), program_id@)->Some_0,
{
    let slices: Vec<&[u8]> = seeds.iter().map(|s| s.as_slice()).collect();
    match Pubkey::create_program_address(&slices, &Pubkey::new_from_array(program_id.bytes)) {
        Ok(key) => Ok(Address { bytes: key.to_bytes() }),
        Err(PubkeyError::MaxSeedLengthExceeded) => Err(SeedError::MaxSeedLengthExceeded),
        Err(PubkeyError::InvalidSeeds) => Err(SeedError::InvalidSeeds),
        Err(PubkeyError::IllegalOwner) => Err(SeedError::IllegalOwner),
    }
}

/// The address that seeds derive under a program, taken as they are, with
/// no nonce added. Seeds that do not fit are refused with
/// `MaxSeedLengthExceeded`; seeds that fit and lead to a point on the curve
/// with `InvalidSeeds`.
pub fn program_address(seeds: &Vec<Vec<u8>>, program_id: &Address) -> (r: Result<
    Address,
    SeedError,
>)
    ensures
        !seeds_fit(seeds_view(seeds@)) ==> r is Err && r->Err_0
            == SeedError::MaxSeedLengthExceeded,
        seeds_fit(seeds_view(seeds@)) && derived_address(seeds_view(seeds@), program_id@) is None
            ==> r is Err && r->Err_0 == SeedError::InvalidSeeds,
        seeds_fit(seeds_view(seeds@)) && derived_address(seeds_view(seeds@), program_id@) is Some
            ==> r is Ok && r->Ok_0@ == derived_address(seeds_view(seeds@), program_id@)->Some_0,
{
    create_program_address(seeds, program_id)
}

/// Whether seeds with a nonce fit does not depend on the nonce.
pub proof fn lemma_fit_any_bump(seeds: Seq<Seq<u8>>, a: u8, b: u8)
    ensures
        seeds_fit(with_bump(seeds, a)) == seeds_fit(with_bump(seeds, b)),
{
    let sa = with_bump(seeds, a);
    let sb = with_bump(seeds, b);
    if seeds_fit(sa) {
        assert forall|i: int| 0 <= i < sb.len() implies (#[trigger] sb[i]).len()
            <= MAX_SEED_LEN by {
            if i < seeds.len() {
                assert(sb[i] == sa[i]);
            }
        }
    }
    if seeds_fit(sb) {
        assert forall|i: int| 0 <= i < sa.len() implies (#[trigger] sa[i]).len()
            <= MAX_SEED_LEN by {
            if i < seeds.len() {
                assert(sa[i] == sb[i]);
            }
        }
    }
}

/// At most one nonce is the highest that derives an address.
pub proof fn lemma_canonical_bump_unique(seeds: Seq<Seq<u8>>, program_id: Seq<u8>, a: u8, b: u8)
    requires
        is_canonical_bump(seeds, program_id, a),
        is_canonical_bump(seeds, program_id, b),
    ensures
        a == b,
{
}

/// The address that seeds derive under a program: the one derived with the
/// highest nonce from 255 down to 1 that derives any. `None` where the seeds
/// do not fit or no nonce derives an address.
pub open spec fn found_address(seeds: Seq<Seq<u8>>, program_id: Seq<u8>) -> Option<Seq<u8>> {
    if seeds_fit(with_bump(seeds, 255)) && exists|b: u8| is_canonical_bump(seeds, program_id, b) {
        derived_address(
            with_bump(seeds, choose|b: u8| is_canonical_bump(seeds, program_id, b)),
            program_id,
        )
    } else {
        None
    }
}

fn seeds_with_bump(seeds: &Vec<Vec<u8>>, bump: u8) -> (r: Vec<Vec<u8>>)
    ensures
        seeds_view(r@) == with_bump(seeds_view(seeds@), bump),
{
    let mut out: Vec<Vec<u8>> = Vec::new();
    let mut i: usize = 0;
    while i < seeds.len()
        invariant
            i <= seeds.len(),
            out@.len() == i,
            forall|j: int| 0 <= j < i ==> out@[j]@ == seeds@[j]@,
        decreases seeds.len() - i,
    {
        let mut seed: Vec<u8> = Vec::new();
        let mut k: usize = 0;
        while k < seeds[i].len()
            invariant
                i < seeds.len(),
                k <= seeds@[i as int]@.len(),
                seed@ == seeds@[i as int]@.subrange(0, k as int),
            decreases seeds@[i as int]@.len() - k,
        {
            seed.push(seeds[i][k]);
            k += 1;
        }
        assert(seed@ =~= seeds@[i as int]@);
        out.push(seed);
        i += 1;
    }
    let mut last: Vec<u8> = Vec::new();
    last.push(bump);
    assert(last@ =~= seq![bump]);
    out.push(last);
    assert(seeds_view(out@) =~= with_bump(seeds_view(seeds@), bump));
    out
}

/// The address that seeds derive under a program, with the nonce that
/// derives it. The nonces are tried from 255 down to 1; the first with
/// which the seeds derive an address is taken. Seeds that do not fit with a
/// nonce derive none.
pub fn find_program_address(seeds: &Vec<Vec<u8>>, program_id: &Address) -> (r: Option<
    (Address, u8),
>)
    ensures
        match r {
            Some((address, bump)) => {
                &&& found_address(seeds_view(seeds@), program_id@) == Some(address@)
                &&& is_canonical_bump(seeds_view(seeds@), program_id@, bump)
                &&& derived_address(with_bump(seeds_view(seeds@), bump), program_id@) == Some(
                    address@,
                )
            },
            None => found_address(seeds_view(seeds@), program_id@) is None,
        },
{
    let ghost sv = seeds_view(seeds@);
    let mut bump: u8 = 255;
    loop
        invariant
            bump >= 1,
            sv == seeds_view(seeds@),
            forall|b: u8| bump < b ==> derived_address(with_bump(sv, b), program_id@) is None,
        decreases bump,
    {
        let candidate = seeds_with_bump(seeds, bump);
        proof {
            lemma_fit_any_bump(sv, bump, 255);
        }
        match create_program_address(&candidate, program_id) {
            Ok(address) => {
                proof {
                    assert(derived_address(with_bump(sv, bump), program_id@) == Some(address@));
                    assert(is_canonical_bump(sv, program_id@, bump));
                    let chosen = choose|b: u8| is_canonical_bump(sv, program_id@, b);
                    lemma_canonical_bump_unique(sv, program_id@, chosen, bump);
                }
                return Some((address, bump));
            },
            Err(SeedError::InvalidSeeds) => {},
            Err(_) => {
                return None;
            },
        }
        if bump == 1 {
            proof {
                if seeds_fit(with_bump(sv, 255)) {
                    assert forall|b: u8| !is_canonical_bump(sv, program_id@, b) by {}
                }
            }
            return None;
        }
        bump -= 1;
    }
}

/// Whether `address` is the one that the seeds derive under the program.
pub fn is_derived(address: &Address, seeds: &Vec<Vec<u8>>, program_id: &Address) -> (r: bool)
    ensures
        r == (found_address(seeds_view(seeds@), program_id@) == Some(address@)),
{
    let found = find_program_address(seeds, program_id);
    proof {
        if found is Some {
            found->Some_0.0.lemma_view_injective(*address);
        }
    }
    is_found_address(address, &found)
}

/// Whether a search came to the address given.
pub fn is_found_address(address: &Address, found: &Option<(Address, u8)>) -> (r: bool)
    ensures
        r == (*found is Some && found->Some_0.0 == *address),
{
    match found {
        Some((at, _)) => *at == *address,
        None => false,
    }
}

/// The two bytes of a market index, low byte first.
pub open spec fn u16_le_bytes(x: u16) -> Seq<u8> {
    seq![(x % 256) as u8, (x / 256) as u8]
}

/// The two bytes of a market index, low byte first.
pub fn u16_to_le_bytes(x: u16) -> (r: Vec<u8>)
    ensures
        r@ == u16_le_bytes(x),
{
    let mut v: Vec<u8> = Vec::new();
    v.push((x % 256) as u8);
    v.push((x / 256) as u8);
    assert(v@ =~= u16_le_bytes(x));
    v
}

/// A copy of the bytes of a label.
pub fn label_bytes<const N: usize>(label: &[u8; N]) -> (r: Vec<u8>)
    ensures
        r@ == label@,
{
    let mut v: Vec<u8> = Vec::new();
    let mut i: usize = 0;
    while i < N
        invariant
            i <= N,
            v@ == label@.subrange(0, i as int),
        decreases N - i,
    {
        v.push(label[i]);
        i += 1;
    }
    assert(label@.subrange(0, N as int) =~= label@);
    v
}

} // verus!
