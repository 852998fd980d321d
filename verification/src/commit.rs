//! The commit verifier: every vote that counts toward the quorum is validly
//! signed, and the validly signed power is more than two thirds of the total.

use crate::block::{SignedHeader, Vote};
use crate::power::{
    has_quorum, selected_power, spec_has_quorum, spec_selected_power, spec_total_power,
    total_power,
};
use crate::validator::{Validator, ValidatorSet};
use crate::verdict::Reason;
use vstd::prelude::*;

verus! {

/// The vote in slot `i` counts toward the quorum of a set of `members`
/// validators: the slot belongs to a member, holds a vote, and the vote was
/// cast for the block.
pub open spec fn counts(votes: Seq<Option<Vote>>, members: nat, i: int) -> bool {
    &&& 0 <= i < votes.len()
    &&& i < members
    &&& votes[i] matches Some(vote)
    &&& vote.for_block
}

/// The vote in slot `i` counts toward the quorum and its signature is not
/// valid.
pub open spec fn forged(votes: Seq<Option<Vote>>, members: nat, i: int) -> bool {
    &&& counts(votes, members, i)
    &&& votes[i] matches Some(vote)
    &&& !vote.signature_valid
}

/// Slot `i` holds a validly signed vote for the block.
pub open spec fn endorses(votes: Seq<Option<Vote>>, i: int) -> bool {
    &&& 0 <= i < votes.len()
    &&& votes[i] matches Some(vote)
    &&& vote.for_block
    &&& vote.signature_valid
}

/// For each slot, whether it holds a validly signed vote for the block.
pub open spec fn endorsements(votes: Seq<Option<Vote>>) -> Seq<bool> {
    Seq::new(votes.len(), |i: int| endorses(votes, i))
}

/// The first slot at or after `from` that holds a forged vote, if any.
pub open spec fn first_forged(votes: Seq<Option<Vote>>, members: nat, from: int) -> Option<int>
    decreases votes.len() - from,
{
    if from < 0 || from >= votes.len() {
        None
    } else if forged(votes, members, from) {
        Some(from)
    } else {
        first_forged(votes, members, from + 1)
    }
}

/// The power of the members of `validators` that validly signed for the
/// block, saturating.
pub open spec fn spec_signed_power(validators: Seq<Validator>, votes: Seq<Option<Vote>>) -> u64 {
    spec_selected_power(validators, endorsements(votes))
}

/// What is wrong with a commit, if anything. A forged vote is reported before
/// a missing quorum, and of several forged votes the first.
pub open spec fn commit_fault(validators: Seq<Validator>, votes: Seq<Option<Vote>>) -> Option<
    Reason,
> {
    match first_forged(votes, validators.len(), 0) {
        Some(index) => Some(Reason::BadSignature { index: index as usize }),
        None => {
            let signed = spec_signed_power(validators, votes);
            let total = spec_total_power(validators);
            if spec_has_quorum(signed, total) {
                None
            } else {
                Some(Reason::InsufficientSignatures { signed, total })
            }
        },
    }
}

/// What `first_forged` finds is forged and nothing before it is; where it
/// finds nothing, nothing is forged.
pub proof fn lemma_first_forged(votes: Seq<Option<Vote>>, members: nat, from: int)
    requires
        0 <= from,
    ensures
        match first_forged(votes, members, from) {
            Some(index) => {
                &&& from <= index < votes.len()
                &&& forged(votes, members, index)
                &&& forall|j: int| from <= j < index ==> !forged(votes, members, j)
            },
            None => forall|j: int| from <= j ==> !forged(votes, members, j),
        },
    decreases votes.len() - from,
{
    if from < votes.len() && !forged(votes, members, from) {
        lemma_first_forged(votes, members, from + 1);
    }
}

/// A commit without fault carries a quorum of validly signed power.
pub proof fn lemma_faultless_commit_has_quorum(
    validators: Seq<Validator>,
    votes: Seq<Option<Vote>>,
)
    requires
        commit_fault(validators, votes) is None,
    ensures
        spec_has_quorum(spec_signed_power(validators, votes), spec_total_power(validators)),
        forall|i: int| !forged(votes, validators.len(), i),
{
    lemma_first_forged(votes, validators.len(), 0);
}

/// For each slot of `votes`, whether it holds a validly signed vote for the
/// block.
pub fn endorsement_mask(votes: &Vec<Option<Vote>>) -> (mask: Vec<bool>)
    ensures
        mask@ == endorsements(votes@),
{
    let mut mask: Vec<bool> = Vec::new();
    let mut i: usize = 0;
    while i < votes.len()
        invariant
            i <= votes.len(),
            mask@ == endorsements(votes@).subrange(0, i as int),
        decreases votes.len() - i,
    {
        let endorsed = match votes[i] {
            Some(vote) => vote.for_block && vote.signature_valid,
            None => false,
        };
        mask.push(endorsed);
        i += 1;
    }
    assert(mask@ == endorsements(votes@));
    mask
}

/// Checks the commit of `signed_header` against the validator set that
/// produced it.
///
/// Every vote is looked at, also after a quorum is reached: a forged vote
/// that counts toward the quorum is rejected wherever it stands. A forged
/// vote that does not count (it was not cast for the block, or its slot
/// belongs to no validator) does not invalidate the commit.
pub fn verify_commit(signed_header: &SignedHeader, validators: &ValidatorSet) -> (r: Result<
    (),
    Reason,
>)
    ensures
        r == match commit_fault(validators@.validators, signed_header@.commit.votes) {
            Some(reason) => Err::<(), Reason>(reason),
            None => Ok(()),
        },
{
    let votes = &signed_header.commit.votes;
    let members = validators.validators();
    let mut i: usize = 0;
    while i < votes.len()
        invariant
            i <= votes.len(),
            votes@ == signed_header@.commit.votes,
            members@ == validators@.validators,
            first_forged(votes@, members@.len(), 0) == first_forged(
                votes@,
                members@.len(),
                i as int,
            ),
        decreases votes.len() - i,
    {
        if i < members.len() {
            match votes[i] {
                Some(vote) => {
                    if vote.for_block && !vote.signature_valid {
                        proof {
                            assert(forged(votes@, members@.len(), i as int));
                            assert(first_forged(votes@, members@.len(), i as int) == Some(
                                i as int,
                            ));
                        }
                        return Err(Reason::BadSignature { index: i });
                    }
                },
                None => {},
            }
        }
        i += 1;
    }
    proof {
        assert(first_forged(votes@, members@.len(), i as int) is None);
    }
    let mask = endorsement_mask(votes);
    let signed: u64 = selected_power(members, &mask);
    let total: u64 = total_power(validators);
    if has_quorum(signed, total) {
        Ok(())
    } else {
        Err(Reason::InsufficientSignatures { signed, total })
    }
}

} // verus!
