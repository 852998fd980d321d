//! Validators and validator sets.

use crate::primitives::{Digest, PublicKey};
use vstd::prelude::*;

verus! {

/// One member of a validator set.
#[derive(Clone, Copy, Debug, PartialEq, Eq)]
pub struct Validator {
    pub public_key: PublicKey,
    pub voting_power: u64,
}

/// No two members share a public key.
pub open spec fn distinct_keys(validators: Seq<Validator>) -> bool {
    forall|i: int, j: int|
        0 <= i < j < validators.len() ==> validators[i].public_key != validators[j].public_key
}

/// What a validator set is: its members in order, and the digest under which
/// headers refer to it.
pub struct ValidatorSetView {
    pub validators: Seq<Validator>,
    pub hash: Digest,
}

/// An ordered collection of validators, unique by public key, together with
/// the digest that identifies it. The digest is computed where the set is
/// decoded; this type carries it and never recomputes it. A set does not
/// change once built.
#[derive(Debug, PartialEq, Eq)]
pub struct ValidatorSet {
    validators: Vec<Validator>,
    hash: Digest,
}

impl View for ValidatorSet {
    type V = ValidatorSetView;

    closed spec fn view(&self) -> ValidatorSetView {
        ValidatorSetView { validators: self.validators@, hash: self.hash }
    }
}

/// Whether `key` belongs to one of `validators[from..]`.
fn key_occurs_from(validators: &Vec<Validator>, from: usize, key: &PublicKey) -> (r: bool)
    requires
        from <= validators.len(),
    ensures
        r == exists|j: int| from <= j < validators.len() && validators[j].public_key == *key,
{
    let mut j: usize = from;
    while j < validators.len()
        invariant
            from <= j <= validators.len(),
            forall|k: int| from <= k < j ==> validators[k].public_key != *key,
        decreases validators.len() - j,
    {
        if validators[j].public_key == *key {
            return true;
        }
        j += 1;
    }
    false
}

/// Whether no public key occurs twice in `validators`.
pub fn has_distinct_keys(validators: &Vec<Validator>) -> (r: bool)
    ensures
        r == distinct_keys(validators@),
{
    let mut i: usize = 0;
    while i < validators.len()
        invariant
            i <= validators.len(),
            forall|a: int, b: int|
                0 <= a < i && a < b < validators.len() ==> validators[a].public_key
                    != validators[b].public_key,
        decreases validators.len() - i,
    {
        let key: PublicKey = validators[i].public_key;
        if key_occurs_from(validators, i + 1, &key) {
            return false;
        }
        i += 1;
    }
    true
}

impl ValidatorSet {
    #[verifier::type_invariant]
    spec fn unique_by_key(&self) -> bool {
        distinct_keys(self.validators@)
    }

    /// Builds a set from its members and its digest. Fails exactly when two
    /// members share a public key.
    pub fn new(validators: Vec<Validator>, hash: Digest) -> (r: Option<ValidatorSet>)
        ensures
            r is Some <==> distinct_keys(validators@),
            r matches Some(s) ==> s@ == (ValidatorSetView { validators: validators@, hash }),
    {
        if has_distinct_keys(&validators) {
            Some(ValidatorSet { validators, hash })
        } else {
            None
        }
    }

    /// The members, in order.
    pub fn validators(&self) -> (r: &Vec<Validator>)
        ensures
            r@ == self@.validators,
            distinct_keys(r@),
    {
        proof {
            use_type_invariant(self);
        }
        &self.validators
    }

    /// The digest that identifies this set.
    pub fn hash(&self) -> (r: Digest)
        ensures
            r == self@.hash,
    {
        self.hash
    }

    /// The number of members.
    pub fn len(&self) -> (r: usize)
        ensures
            r == self@.validators.len(),
    {
        self.validators.len()
    }
}

impl Clone for ValidatorSet {
    fn clone(&self) -> (r: Self)
        ensures
            r@ == self@,
    {
        proof {
            use_type_invariant(self);
        }
        let mut members: Vec<Validator> = Vec::new();
        let mut i: usize = 0;
        while i < self.validators.len()
            invariant
                i <= self.validators.len(),
                members@ == self.validators@.subrange(0, i as int),
            decreases self.validators.len() - i,
        {
            members.push(self.validators[i]);
            i += 1;
        }
        assert(members@ == self.validators@);
        ValidatorSet { validators: members, hash: self.hash }
    }
}

} // verus!
