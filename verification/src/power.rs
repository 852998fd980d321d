//! Voting-power accounting: totals, the power held by a subset, and the
//! comparison of a power against a fraction of a total.
//!
//! Sums saturate at `u64::MAX` and never wrap, so that an overflow cannot turn
//! a missing quorum into a quorum.

use crate::primitives::PublicKey;
use crate::validator::{Validator, ValidatorSet};
use vstd::prelude::*;

verus! {

/// The exact sum of the voting power of `validators`.
pub open spec fn power_sum(validators: Seq<Validator>) -> nat
    decreases validators.len(),
{
    if validators.len() == 0 {
        0
    } else {
        power_sum(validators.drop_last()) + validators.last().voting_power as nat
    }
}

/// The exact sum of the voting power of those `validators[i]` for which
/// `selected[i]` is set. Positions that `selected` does not reach count as
/// not selected.
pub open spec fn selected_power_sum(validators: Seq<Validator>, selected: Seq<bool>) -> nat
    decreases validators.len(),
{
    if validators.len() == 0 {
        0
    } else {
        let last = validators.len() - 1;
        selected_power_sum(validators.drop_last(), selected) + if last < selected.len()
            && selected[last] {
            validators[last].voting_power as nat
        } else {
            0
        }
    }
}

/// `n`, capped at `u64::MAX`.
pub open spec fn saturate(n: nat) -> u64 {
    if n > u64::MAX {
        u64::MAX
    } else {
        n as u64
    }
}

/// The total voting power of `validators`, saturating.
pub open spec fn spec_total_power(validators: Seq<Validator>) -> u64 {
    saturate(power_sum(validators))
}

/// The voting power of the selected members of `validators`, saturating.
pub open spec fn spec_selected_power(validators: Seq<Validator>, selected: Seq<bool>) -> u64 {
    saturate(selected_power_sum(validators, selected))
}

/// For each member of `validators`, whether its key is among `keys`.
pub open spec fn member_mask(validators: Seq<Validator>, keys: Seq<PublicKey>) -> Seq<bool> {
    Seq::new(validators.len(), |i: int| keys.contains(validators[i].public_key))
}

/// The voting power of those members of `validators` whose key is among
/// `keys`, saturating. A key that occurs twice in `keys` counts once.
pub open spec fn spec_power_of(validators: Seq<Validator>, keys: Seq<PublicKey>) -> u64 {
    spec_selected_power(validators, member_mask(validators, keys))
}

/// `power` is strictly more than `numerator / denominator` of `total`.
pub open spec fn spec_exceeds_fraction(
    power: u64,
    total: u64,
    numerator: u64,
    denominator: u64,
) -> bool {
    power as int * denominator as int > numerator as int * total as int
}

/// `power` is strictly more than two thirds of `total`.
pub open spec fn spec_has_quorum(power: u64, total: u64) -> bool {
    spec_exceeds_fraction(power, total, 2, 3)
}

/// A selection never holds more power than the whole.
pub proof fn lemma_selected_at_most_total(validators: Seq<Validator>, selected: Seq<bool>)
    ensures
        selected_power_sum(validators, selected) <= power_sum(validators),
        spec_selected_power(validators, selected) <= spec_total_power(validators),
    decreases validators.len(),
{
    if validators.len() > 0 {
        lemma_selected_at_most_total(validators.drop_last(), selected);
    }
}

/// `a + b`, capped at `u64::MAX`.
fn add_saturating(a: u64, b: u64) -> (r: u64)
    ensures
        r == saturate((a + b) as nat),
{
    if b > u64::MAX - a {
        u64::MAX
    } else {
        a + b
    }
}

/// The power of the selected members of `validators`.
pub fn selected_power(validators: &Vec<Validator>, selected: &Vec<bool>) -> (r: u64)
    ensures
        r == spec_selected_power(validators@, selected@),
{
    let mut acc: u64 = 0;
    let mut i: usize = 0;
    while i < validators.len()
        invariant
            i <= validators.len(),
            acc == spec_selected_power(validators@.subrange(0, i as int), selected@),
        decreases validators.len() - i,
    {
        proof {
            assert(validators@.subrange(0, i + 1).drop_last() == validators@.subrange(0, i as int));
        }
        if i < selected.len() && selected[i] {
            acc = add_saturating(acc, validators[i].voting_power);
        }
        i += 1;
    }
    proof {
        assert(validators@.subrange(0, i as int) == validators@);
    }
    acc
}

/// The total voting power of `set`: the sum of its members' power, saturating.
pub fn total_power(set: &ValidatorSet) -> (r: u64)
    ensures
        r == spec_total_power(set@.validators),
{
    let validators = set.validators();
    let mut acc: u64 = 0;
    let mut i: usize = 0;
    while i < validators.len()
        invariant
            i <= validators.len(),
            acc == spec_total_power(validators@.subrange(0, i as int)),
        decreases validators.len() - i,
    {
        proof {
            assert(validators@.subrange(0, i + 1).drop_last() == validators@.subrange(0, i as int));
        }
        acc = add_saturating(acc, validators[i].voting_power);
        i += 1;
    }
    proof {
        assert(validators@.subrange(0, i as int) == validators@);
    }
    acc
}

/// Whether `key` is among `keys`.
pub fn contains_key(keys: &Vec<PublicKey>, key: &PublicKey) -> (r: bool)
    ensures
        r == keys@.contains(*key),
{
    let mut j: usize = 0;
    while j < keys.len()
        invariant
            j <= keys.len(),
            forall|k: int| 0 <= k < j ==> keys[k] != *key,
        decreases keys.len() - j,
    {
        if keys[j] == *key {
            return true;
        }
        j += 1;
    }
    false
}

/// The voting power of those members of `set` whose key is among `keys`,
/// saturating.
pub fn power_of(set: &ValidatorSet, keys: &Vec<PublicKey>) -> (r: u64)
    ensures
        r == spec_power_of(set@.validators, keys@),
{
    let validators = set.validators();
    let mut selected: Vec<bool> = Vec::new();
    let mut i: usize = 0;
    while i < validators.len()
        invariant
            i <= validators.len(),
            selected@ == member_mask(validators@, keys@).subrange(0, i as int),
        decreases validators.len() - i,
    {
        let hit = contains_key(keys, &validators[i].public_key);
        selected.push(hit);
        i += 1;
    }
    proof {
        assert(selected@ == member_mask(validators@, keys@));
    }
    selected_power(validators, &selected)
}

/// Whether `power` is strictly more than `numerator / denominator` of `total`.
/// The products are formed in 128 bits and cannot overflow.
pub fn exceeds_fraction(power: u64, total: u64, numerator: u64, denominator: u64) -> (r: bool)
    ensures
        r == spec_exceeds_fraction(power, total, numerator, denominator),
{
    proof {
        assert(power as int * denominator as int <= 0xffff_ffff_ffff_ffff * 0xffff_ffff_ffff_ffff)
            by (nonlinear_arith)
            requires
                0 <= power <= 0xffff_ffff_ffff_ffff,
                0 <= denominator <= 0xffff_ffff_ffff_ffff,
        ;
        assert(numerator as int * total as int <= 0xffff_ffff_ffff_ffff * 0xffff_ffff_ffff_ffff)
            by (nonlinear_arith)
            requires
                0 <= numerator <= 0xffff_ffff_ffff_ffff,
                0 <= total <= 0xffff_ffff_ffff_ffff,
        ;
    }
    let lhs: u128 = (power as u128) * (denominator as u128);
    let rhs: u128 = (numerator as u128) * (total as u128);
    lhs > rhs
}

/// Whether `power` is strictly more than two thirds of `total`.
pub fn has_quorum(power: u64, total: u64) -> (r: bool)
    ensures
        r == spec_has_quorum(power, total),
{
    exceeds_fraction(power, total, 2, 3)
}

} // verus!
