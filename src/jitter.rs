use rand::rngs::StdRng;
use rand::{Rng, SeedableRng};
use vstd::multiset::Multiset;
use vstd::prelude::*;

verus! {

#[verifier::external_type_specification]
#[verifier::external_body]
pub struct ExStdRng(StdRng);

/// Relies on rand's `SeedableRng::seed_from_u64`: a generator whose draws are
/// fixed by `seed`.
#[verifier::external_body]
pub(crate) fn seeded_rng(seed: u64) -> StdRng {
    StdRng::seed_from_u64(seed)
}

/// Relies on rand's `Rng::gen_range` over the inclusive range `lo..=hi`: it
/// returns a value of that range, and panics only when the range is empty.
#[verifier::external_body]
pub(crate) fn draw_between(rng: &mut StdRng, lo: u64, hi: u64) -> (r: u64)
    requires
        lo <= hi,
    ensures
        lo <= r <= hi,
{
    rng.gen_range(lo..=hi)
}

/// Relies on rand's `Rng::gen_ratio`: `true` with chance `numerator` in
/// `denominator`; always `false` for a zero numerator and always `true` when
/// the two are equal; panics only for a zero denominator or a numerator above
/// it.
#[verifier::external_body]
pub(crate) fn chance(rng: &mut StdRng, numerator: u32, denominator: u32) -> (r: bool)
    requires
        0 < denominator,
        numerator <= denominator,
    ensures
        numerator == 0 ==> !r,
        numerator == denominator ==> r,
{
    rng.gen_ratio(numerator, denominator)
}

/// A uniformly drawn position of a sequence of `len` items; `None` when there
/// are none.
pub fn pick_index(rng: &mut StdRng, len: usize) -> (r: Option<usize>)
    ensures
        len == 0 <==> r is None,
        r matches Some(i) ==> i < len,
{
    if len == 0 {
        None
    } else {
        Some(draw_between(rng, 0, (len - 1) as u64) as usize)
    }
}

/// Rolls a chance of `percent` in a hundred; a percentage above a hundred
/// counts as a hundred.
pub fn roll_percent(rng: &mut StdRng, percent: u32) -> (r: bool)
    ensures
        percent == 0 ==> !r,
        percent >= 100 ==> r,
{
    let p = if percent > 100 {
        100
    } else {
        percent
    };
    chance(rng, p, 100)
}

/// Puts `pool` in a random order, every order being possible: each step moves a
/// uniformly drawn remaining item to the back of the result.
pub fn random_order<T>(rng: &mut StdRng, pool: Vec<T>) -> (r: Vec<T>)
    ensures
        r@.to_multiset() == pool@.to_multiset(),
        r@.len() == pool@.len(),
{
    broadcast use vstd::seq_lib::group_to_multiset_ensures;

    let mut remaining = pool;
    let mut out: Vec<T> = Vec::new();
    while remaining.len() > 0
        invariant
            out@.to_multiset().add(remaining@.to_multiset()) == pool@.to_multiset(),
            out@.len() + remaining@.len() == pool@.len(),
        decreases remaining@.len(),
    {
        let last = (remaining.len() - 1) as u64;
        let idx = draw_between(rng, 0, last) as usize;
        let ghost before_out = out@;
        let ghost before_rem = remaining@;
        let item = remaining.remove(idx);
        proof {
            vstd::seq_lib::to_multiset_remove(before_rem, idx as int);
            assert(before_rem.to_multiset().count(item) > 0) by {
                vstd::seq_lib::to_multiset_contains(before_rem, item);
            }
        }
        out.push(item);
        proof {
            vstd::seq_lib::to_multiset_build(before_out, item);
            assert(out@.to_multiset().add(remaining@.to_multiset()) =~= before_out.to_multiset().add(
                before_rem.to_multiset(),
            ));
        }
    }
    proof {
        assert(remaining@ =~= Seq::<T>::empty());
        assert(remaining@.to_multiset() =~= Multiset::<T>::empty());
        assert(out@.to_multiset().add(Multiset::<T>::empty()) =~= out@.to_multiset());
    }
    out
}

} // verus!
