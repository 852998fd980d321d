//! The trust-threshold checker: how much of a trusted validator set's power
//! also stands behind a later block.

use crate::block::{Commit, Vote};
use crate::commit::endorses;
use crate::power::{
    exceeds_fraction, lemma_selected_at_most_total, member_mask, power_of,
    spec_exceeds_fraction, spec_selected_power, spec_total_power, total_power,
};
use crate::primitives::PublicKey;
use crate::threshold::TrustThreshold;
use crate::validator::{Validator, ValidatorSet};
use crate::verdict::VotingPowerTally;
use vstd::prelude::*;

verus! {

/// The validator with public key `key` is a member of `validators` and its
/// slot in `votes` holds a validly signed vote for the block.
pub open spec fn signed_by(
    validators: Seq<Validator>,
    votes: Seq<Option<Vote>>,
    key: PublicKey,
) -> bool {
    exists|j: int|
        0 <= j < validators.len() && endorses(votes, j) && #[trigger] validators[j].public_key
            == key
}

/// For each trusted validator, whether it validly signed the untrusted
/// block.
pub open spec fn overlap_mask(
    trusted: Seq<Validator>,
    untrusted: Seq<Validator>,
    votes: Seq<Option<Vote>>,
) -> Seq<bool> {
    Seq::new(trusted.len(), |i: int| signed_by(untrusted, votes, trusted[i].public_key))
}

/// The power, within `trusted`, of the validators that are members of
/// `trusted` and validly signed the untrusted block; saturating.
pub open spec fn spec_trusted_power(
    trusted: Seq<Validator>,
    untrusted: Seq<Validator>,
    votes: Seq<Option<Vote>>,
) -> u64 {
    spec_selected_power(trusted, overlap_mask(trusted, untrusted, votes))
}

/// The tally of trusted power behind an untrusted block.
pub open spec fn spec_trust_tally(
    trusted: Seq<Validator>,
    untrusted: Seq<Validator>,
    votes: Seq<Option<Vote>>,
    threshold: TrustThreshold,
) -> VotingPowerTally {
    VotingPowerTally {
        total: spec_total_power(trusted),
        tallied: spec_trusted_power(trusted, untrusted, votes),
        threshold,
    }
}

/// The tallied power is strictly more than the threshold's share of the
/// total.
pub open spec fn tally_satisfied(tally: VotingPowerTally) -> bool {
    spec_exceeds_fraction(
        tally.tallied,
        tally.total,
        tally.threshold.spec_numerator(),
        tally.threshold.spec_denominator(),
    )
}

/// The keys of those among the first `n` members of `validators` whose slot
/// in `votes` holds a validly signed vote for the block, in the order of their
/// slots.
pub open spec fn spec_signer_keys(
    validators: Seq<Validator>,
    votes: Seq<Option<Vote>>,
    n: int,
) -> Seq<PublicKey>
    decreases n,
{
    if n <= 0 {
        Seq::empty()
    } else {
        let before = spec_signer_keys(validators, votes, n - 1);
        if n <= validators.len() && endorses(votes, n - 1) {
            before.push(validators[n - 1].public_key)
        } else {
            before
        }
    }
}

/// The signer keys are the keys of the validators that signed, and no
/// others.
pub proof fn lemma_signer_keys_are_signers(
    validators: Seq<Validator>,
    votes: Seq<Option<Vote>>,
    n: int,
)
    requires
        0 <= n <= validators.len(),
    ensures
        forall|key: PublicKey|
            spec_signer_keys(validators, votes, n).contains(key) <==> exists|j: int|
                0 <= j < n && endorses(votes, j) && #[trigger] validators[j].public_key == key,
    decreases n,
{
    if n > 0 {
        lemma_signer_keys_are_signers(validators, votes, n - 1);
        let before = spec_signer_keys(validators, votes, n - 1);
        let keys = spec_signer_keys(validators, votes, n);
        let added = endorses(votes, n - 1);
        assert forall|key: PublicKey| keys.contains(key) <==> exists|j: int|
            0 <= j < n && endorses(votes, j) && #[trigger] validators[j].public_key == key by {
            if keys.contains(key) {
                let at = choose|at: int| 0 <= at < keys.len() && keys[at] == key;
                if at < before.len() {
                    assert(before[at] == key);
                    assert(before.contains(key));
                } else {
                    assert(validators[n - 1].public_key == key);
                }
            }
            if exists|j: int|
                0 <= j < n && endorses(votes, j) && #[trigger] validators[j].public_key == key {
                let j = choose|j: int|
                    0 <= j < n && endorses(votes, j) && #[trigger] validators[j].public_key == key;
                if j < n - 1 {
                    assert(before.contains(key));
                    let at = choose|at: int| 0 <= at < before.len() && before[at] == key;
                    assert(keys[at] == key);
                } else {
                    assert(added);
                    assert(keys[before.len() as int] == key);
                }
            }
        }
    }
}

/// The keys of the members of `validators` whose slot in `commit` holds a
/// validly signed vote for the block, in the order of their slots.
pub fn signer_keys(validators: &ValidatorSet, commit: &Commit) -> (keys: Vec<PublicKey>)
    ensures
        keys@ == spec_signer_keys(
            validators@.validators,
            commit@.votes,
            validators@.validators.len() as int,
        ),
        forall|key: PublicKey|
            keys@.contains(key) <==> signed_by(validators@.validators, commit@.votes, key),
{
    let members = validators.validators();
    let votes = &commit.votes;
    let mut keys: Vec<PublicKey> = Vec::new();
    let mut j: usize = 0;
    while j < members.len()
        invariant
            j <= members.len(),
            keys@ == spec_signer_keys(members@, votes@, j as int),
        decreases members.len() - j,
    {
        let endorsed = j < votes.len() && match votes[j] {
            Some(vote) => vote.for_block && vote.signature_valid,
            None => false,
        };
        if endorsed {
            keys.push(members[j].public_key);
        }
        j += 1;
    }
    proof {
        lemma_signer_keys_are_signers(members@, votes@, members@.len() as int);
    }
    keys
}

/// Measures the trusted power behind an untrusted block and holds it against
/// `threshold`.
///
/// The power counted is that of the validators which are members of
/// `trusted_validators` and whose vote in `commit`, at their slot among
/// `untrusted_validators`, is validly signed for the block. It is measured
/// against the total power of `trusted_validators`. The result is whether the
/// power is strictly more than the threshold's share of that total, and the
/// tally itself.
pub fn check_trust_threshold(
    trusted_validators: &ValidatorSet,
    untrusted_validators: &ValidatorSet,
    commit: &Commit,
    threshold: TrustThreshold,
) -> (r: (bool, VotingPowerTally))
    ensures
        r.1 == spec_trust_tally(
            trusted_validators@.validators,
            untrusted_validators@.validators,
            commit@.votes,
            threshold,
        ),
        r.0 == tally_satisfied(r.1),
        r.1.tallied <= r.1.total,
{
    let keys = signer_keys(untrusted_validators, commit);
    let tallied: u64 = power_of(trusted_validators, &keys);
    let total: u64 = total_power(trusted_validators);
    proof {
        lemma_selected_at_most_total(
            trusted_validators@.validators,
            member_mask(trusted_validators@.validators, keys@),
        );
        assert(member_mask(trusted_validators@.validators, keys@) =~= overlap_mask(
            trusted_validators@.validators,
            untrusted_validators@.validators,
            commit@.votes,
        ));
    }
    let tally = VotingPowerTally { total, tallied, threshold };
    let satisfied = exceeds_fraction(
        tallied,
        total,
        threshold.numerator(),
        threshold.denominator(),
    );
    (satisfied, tally)
}

} // verus!
