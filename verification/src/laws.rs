//! What holds of verification as a whole, proved from the definitions.

use crate::bisection::{lemma_success_is_at_target, spec_verify_to_target};
use crate::block::{LightBlock, LightBlockView, TrustedState, TrustedStateView};
use crate::commit::{
    commit_fault, endorsements, lemma_faultless_commit_has_quorum, spec_signed_power,
};
use crate::power::{
    lemma_selected_at_most_total, power_sum, selected_power_sum, spec_has_quorum,
    spec_total_power,
};
use crate::primitives::{Duration, Time};
use crate::single_step::{is_expired, lemma_not_invalid_passed_checks, spec_verify_single};
use crate::threshold::TrustThreshold;
use crate::verdict::{Outcome, ProviderError, Reason, VerificationError};
use vstd::prelude::*;

verus! {

/// The conditions under which one verification is made.
pub struct Conditions {
    pub threshold: TrustThreshold,
    pub trusting_period: Duration,
    pub clock_drift: Duration,
    pub now: Time,
}

/// The anchor against which `blocks[i]` is verified in a run that starts at
/// `trusted` and takes each verified block as the next anchor.
pub open spec fn anchor_before(
    trusted: TrustedStateView,
    blocks: Seq<LightBlockView>,
    i: int,
) -> TrustedStateView {
    if i <= 0 {
        trusted
    } else {
        blocks[i - 1].as_trusted()
    }
}

/// Each of `blocks` is verified with success against the one before it, the
/// first against `trusted`, each under its own conditions.
pub open spec fn is_run_of_successes(
    trusted: TrustedStateView,
    blocks: Seq<LightBlockView>,
    conditions: Seq<Conditions>,
) -> bool {
    &&& conditions.len() == blocks.len()
    &&& forall|i: int|
        0 <= i < blocks.len() ==> spec_verify_single(
            anchor_before(trusted, blocks, i),
            #[trigger] blocks[i],
            conditions[i].threshold,
            conditions[i].trusting_period,
            conditions[i].clock_drift,
            conditions[i].now,
        ) is Trusted
}

/// A block that is verified with success stands above its anchor.
pub proof fn law_success_raises_height(
    trusted: TrustedStateView,
    candidate: LightBlockView,
    threshold: TrustThreshold,
    trusting_period: Duration,
    clock_drift: Duration,
    now: Time,
)
    requires
        spec_verify_single(trusted, candidate, threshold, trusting_period, clock_drift, now)
            is Trusted,
    ensures
        trusted.height() < candidate.height(),
        trusted.height() < candidate.as_trusted().height(),
{
    lemma_not_invalid_passed_checks(
        trusted,
        candidate,
        threshold,
        trusting_period,
        clock_drift,
        now,
    );
}

/// Trust is monotonic: over any run of successful verifications, the height
/// of the trusted state rises strictly with every step.
pub proof fn law_trust_is_monotonic(
    trusted: TrustedStateView,
    blocks: Seq<LightBlockView>,
    conditions: Seq<Conditions>,
)
    requires
        is_run_of_successes(trusted, blocks, conditions),
    ensures
        forall|j: int| 0 <= j < blocks.len() ==> trusted.height() < (#[trigger] blocks[j]).height(),
        forall|i: int, j: int|
            0 <= i < j < blocks.len() ==> (#[trigger] blocks[i]).height() < (
            #[trigger] blocks[j]).height(),
    decreases blocks.len(),
{
    if blocks.len() > 0 {
        let last = blocks.len() - 1;
        let shorter = blocks.drop_last();
        assert forall|i: int| 0 <= i < shorter.len() implies spec_verify_single(
            anchor_before(trusted, shorter, i),
            #[trigger] shorter[i],
            conditions.drop_last()[i].threshold,
            conditions.drop_last()[i].trusting_period,
            conditions.drop_last()[i].clock_drift,
            conditions.drop_last()[i].now,
        ) is Trusted by {
            assert(shorter[i] == blocks[i]);
            assert(anchor_before(trusted, shorter, i) == anchor_before(trusted, blocks, i));
        }
        law_trust_is_monotonic(trusted, shorter, conditions.drop_last());
        assert(anchor_before(trusted, blocks, last).height() < blocks[last].height()) by {
            law_success_raises_height(
                anchor_before(trusted, blocks, last),
                blocks[last],
                conditions[last].threshold,
                conditions[last].trusting_period,
                conditions[last].clock_drift,
                conditions[last].now,
            );
        }
        assert forall|j: int| 0 <= j < blocks.len() implies trusted.height() < (
        #[trigger] blocks[j]).height() by {
            if j < last {
                assert(shorter[j] == blocks[j]);
            } else if last > 0 {
                assert(shorter[last - 1] == blocks[last - 1]);
            }
        }
        assert forall|i: int, j: int| 0 <= i < j < blocks.len() implies (
        #[trigger] blocks[i]).height() < (#[trigger] blocks[j]).height() by {
            assert(shorter[i] == blocks[i]);
            if j < last {
                assert(shorter[j] == blocks[j]);
            } else {
                assert(shorter[last - 1] == blocks[last - 1]);
            }
        }
    }
}

/// No acceptance without quorum: a candidate whose validly signed voting
/// power is not more than two thirds of the total power of its validator set
/// is never verified with success. Powers and totals are the saturating sums
/// of the accounting.
pub proof fn law_no_acceptance_without_quorum(
    trusted: TrustedStateView,
    candidate: LightBlockView,
    threshold: TrustThreshold,
    trusting_period: Duration,
    clock_drift: Duration,
    now: Time,
)
    requires
        !spec_has_quorum(
            spec_signed_power(
                candidate.validator_set.validators,
                candidate.signed_header.commit.votes,
            ),
            spec_total_power(candidate.validator_set.validators),
        ),
    ensures
        !(spec_verify_single(trusted, candidate, threshold, trusting_period, clock_drift, now)
            is Trusted),
{
    lemma_not_invalid_passed_checks(
        trusted,
        candidate,
        threshold,
        trusting_period,
        clock_drift,
        now,
    );
    if commit_fault(candidate.validator_set.validators, candidate.signed_header.commit.votes)
        is None {
        lemma_faultless_commit_has_quorum(
            candidate.validator_set.validators,
            candidate.signed_header.commit.votes,
        );
    }
}

/// No acceptance without quorum, in exact sums: where the total power of the
/// candidate's validator set fits in 64 bits, a candidate whose validly
/// signed power is at most two thirds of that total is never verified with
/// success.
pub proof fn law_no_acceptance_without_exact_quorum(
    trusted: TrustedStateView,
    candidate: LightBlockView,
    threshold: TrustThreshold,
    trusting_period: Duration,
    clock_drift: Duration,
    now: Time,
)
    requires
        power_sum(candidate.validator_set.validators) <= u64::MAX,
        3 * selected_power_sum(
            candidate.validator_set.validators,
            endorsements(candidate.signed_header.commit.votes),
        ) <= 2 * power_sum(candidate.validator_set.validators),
    ensures
        !(spec_verify_single(trusted, candidate, threshold, trusting_period, clock_drift, now)
            is Trusted),
{
    lemma_selected_at_most_total(
        candidate.validator_set.validators,
        endorsements(candidate.signed_header.commit.votes),
    );
    law_no_acceptance_without_quorum(
        trusted,
        candidate,
        threshold,
        trusting_period,
        clock_drift,
        now,
    );
}

/// No acceptance after expiry: once the anchor is as old as the trusting
/// period, every candidate is rejected as expired, whatever it holds.
pub proof fn law_no_acceptance_after_expiry(
    trusted: TrustedStateView,
    candidate: LightBlockView,
    threshold: TrustThreshold,
    trusting_period: Duration,
    clock_drift: Duration,
    now: Time,
)
    requires
        is_expired(trusted.signed_header.header.time, trusting_period, now),
    ensures
        spec_verify_single(trusted, candidate, threshold, trusting_period, clock_drift, now)
            == Outcome::Invalid(
            Reason::Expired { trusted_time: trusted.signed_header.header.time, now },
        ),
{
    reveal(spec_verify_single);
}

/// The verdict is repeatable: the same block against the same trusted state,
/// under the same conditions, gets the same verdict, however often and from
/// whichever copies it is asked.
pub proof fn law_verdict_is_repeatable(
    trusted: TrustedState,
    trusted_again: TrustedState,
    candidate: LightBlock,
    candidate_again: LightBlock,
    threshold: TrustThreshold,
    trusting_period: Duration,
    clock_drift: Duration,
    now: Time,
)
    requires
        trusted@ == trusted_again@,
        candidate@ == candidate_again@,
    ensures
        spec_verify_single(trusted@, candidate@, threshold, trusting_period, clock_drift, now)
            == spec_verify_single(
            trusted_again@,
            candidate_again@,
            threshold,
            trusting_period,
            clock_drift,
            now,
        ),
{
}

/// `path` leads from `trusted` to its last block by single steps: the source
/// serves each block at its own height, and each is verified with success
/// against the one before it, the first against `trusted`.
pub open spec fn is_trust_path(
    source: spec_fn(u64) -> Result<LightBlockView, ProviderError>,
    trusted: TrustedStateView,
    path: Seq<LightBlockView>,
    threshold: TrustThreshold,
    trusting_period: Duration,
    clock_drift: Duration,
    now: Time,
) -> bool {
    &&& path.len() >= 1
    &&& forall|i: int|
        0 <= i < path.len() ==> {
            &&& source((#[trigger] path[i]).height()) == Ok::<LightBlockView, ProviderError>(
                path[i],
            )
            &&& spec_verify_single(
                anchor_before(trusted, path, i),
                path[i],
                threshold,
                trusting_period,
                clock_drift,
                now,
            ) is Trusted
        }
}

/// The path of single steps that a successful search has taken.
pub proof fn lemma_search_takes_trust_path(
    source: spec_fn(u64) -> Result<LightBlockView, ProviderError>,
    trusted: TrustedStateView,
    target_height: u64,
    threshold: TrustThreshold,
    trusting_period: Duration,
    clock_drift: Duration,
    now: Time,
) -> (path: Seq<LightBlockView>)
    requires
        spec_verify_to_target(
            source,
            trusted,
            target_height,
            threshold,
            trusting_period,
            clock_drift,
            now,
        ) is Ok,
    ensures
        is_trust_path(source, trusted, path, threshold, trusting_period, clock_drift, now),
        spec_verify_to_target(
            source,
            trusted,
            target_height,
            threshold,
            trusting_period,
            clock_drift,
            now,
        ) == Ok::<LightBlockView, VerificationError>(path.last()),
        path.last().height() == target_height,
    decreases target_height - trusted.height(),
{
    let block = source(target_height)->Ok_0;
    let single = spec_verify_single(
        trusted,
        block,
        threshold,
        trusting_period,
        clock_drift,
        now,
    );
    if single is Trusted {
        let path = seq![block];
        assert(path[0] == block);
        path
    } else {
        let pivot = (trusted.height() + (target_height - trusted.height()) / 2) as u64;
        let middle = spec_verify_to_target(
            source,
            trusted,
            pivot,
            threshold,
            trusting_period,
            clock_drift,
            now,
        )->Ok_0;
        lemma_success_is_at_target(
            source,
            trusted,
            pivot,
            threshold,
            trusting_period,
            clock_drift,
            now,
        );
        let first = lemma_search_takes_trust_path(
            source,
            trusted,
            pivot,
            threshold,
            trusting_period,
            clock_drift,
            now,
        );
        let second = lemma_search_takes_trust_path(
            source,
            middle.as_trusted(),
            target_height,
            threshold,
            trusting_period,
            clock_drift,
            now,
        );
        let path = first + second;
        assert forall|i: int| 0 <= i < path.len() implies {
            &&& source((#[trigger] path[i]).height()) == Ok::<LightBlockView, ProviderError>(
                path[i],
            )
            &&& spec_verify_single(
                anchor_before(trusted, path, i),
                path[i],
                threshold,
                trusting_period,
                clock_drift,
                now,
            ) is Trusted
        } by {
            if i < first.len() {
                assert(path[i] == first[i]);
                if i > 0 {
                    assert(path[i - 1] == first[i - 1]);
                }
                assert(anchor_before(trusted, path, i) == anchor_before(trusted, first, i));
            } else {
                let k = i - first.len();
                assert(path[i] == second[k]);
                if k > 0 {
                    assert(path[i - 1] == second[k - 1]);
                } else {
                    assert(path[i - 1] == first.last());
                }
                assert(anchor_before(trusted, path, i) == anchor_before(
                    middle.as_trusted(),
                    second,
                    k,
                ));
            }
        }
        assert(path.last() == second.last());
        path
    }
}

/// Bisection is sound: where a search ends in a block, the block stands at
/// the target height, and some sequence of blocks that the source serves
/// leads to it from the trusted state, each verified with success against
/// the one before it.
pub proof fn law_bisection_success_has_trust_path(
    source: spec_fn(u64) -> Result<LightBlockView, ProviderError>,
    trusted: TrustedStateView,
    target_height: u64,
    threshold: TrustThreshold,
    trusting_period: Duration,
    clock_drift: Duration,
    now: Time,
)
    ensures
        spec_verify_to_target(
            source,
            trusted,
            target_height,
            threshold,
            trusting_period,
            clock_drift,
            now,
        ) matches Ok(block) ==> block.height() == target_height && exists|
            path: Seq<LightBlockView>,
        |
            #![trigger path.last()]
            path.last() == block && is_trust_path(
                source,
                trusted,
                path,
                threshold,
                trusting_period,
                clock_drift,
                now,
            ),
{
    let reached = spec_verify_to_target(
        source,
        trusted,
        target_height,
        threshold,
        trusting_period,
        clock_drift,
        now,
    );
    if reached is Ok {
        let path = lemma_search_takes_trust_path(
            source,
            trusted,
            target_height,
            threshold,
            trusting_period,
            clock_drift,
            now,
        );
        assert(path.last() == reached->Ok_0);
    }
}

/// Where the block at the target can be trusted directly, the search ends in
/// it after that one step.
pub proof fn law_direct_trust_needs_no_bisection(
    source: spec_fn(u64) -> Result<LightBlockView, ProviderError>,
    trusted: TrustedStateView,
    target_height: u64,
    threshold: TrustThreshold,
    trusting_period: Duration,
    clock_drift: Duration,
    now: Time,
)
    requires
        source(target_height) matches Ok(block) && block.height() == target_height
            && spec_verify_single(
            trusted,
            block,
            threshold,
            trusting_period,
            clock_drift,
            now,
        ) is Trusted,
    ensures
        spec_verify_to_target(
            source,
            trusted,
            target_height,
            threshold,
            trusting_period,
            clock_drift,
            now,
        ) == Ok::<LightBlockView, VerificationError>(source(target_height)->Ok_0),
{
}

/// A failure that is not a lack of trust is never bridged: where the block at
/// the target is rejected for good, the search ends with that rejection.
pub proof fn law_invalid_is_propagated(
    source: spec_fn(u64) -> Result<LightBlockView, ProviderError>,
    trusted: TrustedStateView,
    target_height: u64,
    threshold: TrustThreshold,
    trusting_period: Duration,
    clock_drift: Duration,
    now: Time,
)
    requires
        source(target_height) matches Ok(block) && block.height() == target_height
            && spec_verify_single(
            trusted,
            block,
            threshold,
            trusting_period,
            clock_drift,
            now,
        ) is Invalid,
    ensures
        spec_verify_to_target(
            source,
            trusted,
            target_height,
            threshold,
            trusting_period,
            clock_drift,
            now,
        ) == Err::<LightBlockView, VerificationError>(
            VerificationError::Invalid(
                spec_verify_single(
                    trusted,
                    source(target_height)->Ok_0,
                    threshold,
                    trusting_period,
                    clock_drift,
                    now,
                )->Invalid_0,
            ),
        ),
{
}

/// No acceptance after expiry, for a search: from an anchor that has
/// expired, no search ends in a block, whatever the source serves.
pub proof fn law_bisection_rejects_after_expiry(
    source: spec_fn(u64) -> Result<LightBlockView, ProviderError>,
    trusted: TrustedStateView,
    target_height: u64,
    threshold: TrustThreshold,
    trusting_period: Duration,
    clock_drift: Duration,
    now: Time,
)
    requires
        is_expired(trusted.signed_header.header.time, trusting_period, now),
    ensures
        !(spec_verify_to_target(
            source,
            trusted,
            target_height,
            threshold,
            trusting_period,
            clock_drift,
            now,
        ) is Ok),
{
    if let Ok(block) = source(target_height) {
        law_no_acceptance_after_expiry(
            trusted,
            block,
            threshold,
            trusting_period,
            clock_drift,
            now,
        );
    }
}

/// No acceptance without quorum, for a search: the block in which a search
/// ends carries a quorum of validly signed power.
pub proof fn law_bisection_success_has_quorum(
    source: spec_fn(u64) -> Result<LightBlockView, ProviderError>,
    trusted: TrustedStateView,
    target_height: u64,
    threshold: TrustThreshold,
    trusting_period: Duration,
    clock_drift: Duration,
    now: Time,
)
    ensures
        spec_verify_to_target(
            source,
            trusted,
            target_height,
            threshold,
            trusting_period,
            clock_drift,
            now,
        ) matches Ok(block) ==> spec_has_quorum(
            spec_signed_power(block.validator_set.validators, block.signed_header.commit.votes),
            spec_total_power(block.validator_set.validators),
        ),
{
    let reached = spec_verify_to_target(
        source,
        trusted,
        target_height,
        threshold,
        trusting_period,
        clock_drift,
        now,
    );
    if reached is Ok {
        let path = lemma_search_takes_trust_path(
            source,
            trusted,
            target_height,
            threshold,
            trusting_period,
            clock_drift,
            now,
        );
        let last = path.len() - 1;
        let block = path[last];
        if !spec_has_quorum(
            spec_signed_power(block.validator_set.validators, block.signed_header.commit.votes),
            spec_total_power(block.validator_set.validators),
        ) {
            law_no_acceptance_without_quorum(
                anchor_before(trusted, path, last),
                block,
                threshold,
                trusting_period,
                clock_drift,
                now,
            );
        }
    }
}

} // verus!
