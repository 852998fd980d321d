//! The single-step verifier: one untrusted block against one trusted state.

use crate::block::{LightBlock, LightBlockView, TrustedState, TrustedStateView};
use crate::commit::{
    commit_fault, lemma_faultless_commit_has_quorum, spec_signed_power, verify_commit,
};
use crate::linker::{check_linkage, linkage_fault};
use crate::power::{spec_has_quorum, spec_total_power};
use crate::primitives::{Duration, Time};
use crate::threshold::TrustThreshold;
use crate::trust::{check_trust_threshold, spec_trust_tally, tally_satisfied};
use crate::verdict::{Outcome, Reason, Verdict};
use vstd::prelude::*;

verus! {

/// An anchor of time `trusted_time` is as old as `trusting_period` or older
/// at `now`.
pub open spec fn is_expired(trusted_time: Time, trusting_period: Duration, now: Time) -> bool {
    now.nanos - trusted_time.nanos >= trusting_period.nanos
}

/// A header of time `header_time` is further ahead of `now` than
/// `clock_drift`.
pub open spec fn is_from_future(header_time: Time, clock_drift: Duration, now: Time) -> bool {
    header_time.nanos > now.nanos + clock_drift.nanos
}

/// `candidate` stands directly above `trusted` and is signed by the validator
/// set that `trusted` holds as its next one.
pub open spec fn is_direct_successor(trusted: TrustedStateView, candidate: LightBlockView) -> bool {
    &&& candidate.height() == trusted.height() + 1
    &&& candidate.validator_set.hash == trusted.next_validator_set.hash
}

/// The decision on `candidate` against `trusted` at `now`.
///
/// In this order, the first that applies decides: an anchor that has expired;
/// a candidate from the future; a broken link; a faulty commit. A candidate
/// that passes these is trusted when it is the direct successor of the
/// anchor, or when enough of the anchor's next validator set signed it;
/// otherwise trust is lacking.
#[verifier::opaque]
pub open spec fn spec_verify_single(
    trusted: TrustedStateView,
    candidate: LightBlockView,
    threshold: TrustThreshold,
    trusting_period: Duration,
    clock_drift: Duration,
    now: Time,
) -> Outcome {
    let trusted_time = trusted.signed_header.header.time;
    let header_time = candidate.signed_header.header.time;
    let votes = candidate.signed_header.commit.votes;
    if is_expired(trusted_time, trusting_period, now) {
        Outcome::Invalid(Reason::Expired { trusted_time, now })
    } else if is_from_future(header_time, clock_drift, now) {
        Outcome::Invalid(Reason::HeaderFromFuture { header_time, now })
    } else if let Some(fault) = linkage_fault(trusted, candidate) {
        Outcome::Invalid(Reason::LinkageMismatch(fault))
    } else if let Some(reason) = commit_fault(candidate.validator_set.validators, votes) {
        Outcome::Invalid(reason)
    } else if is_direct_successor(trusted, candidate) {
        Outcome::Trusted
    } else {
        let tally = spec_trust_tally(
            trusted.next_validator_set.validators,
            candidate.validator_set.validators,
            votes,
            threshold,
        );
        if tally_satisfied(tally) {
            Outcome::Trusted
        } else {
            Outcome::NotEnoughTrust(tally)
        }
    }
}

/// A candidate that is not rejected for good has passed every check that
/// comes before the question of trust; in particular it stands above its
/// anchor.
pub proof fn lemma_not_invalid_passed_checks(
    trusted: TrustedStateView,
    candidate: LightBlockView,
    threshold: TrustThreshold,
    trusting_period: Duration,
    clock_drift: Duration,
    now: Time,
)
    ensures
        !(spec_verify_single(trusted, candidate, threshold, trusting_period, clock_drift, now)
            is Invalid) ==> {
            &&& !is_expired(trusted.signed_header.header.time, trusting_period, now)
            &&& !is_from_future(candidate.signed_header.header.time, clock_drift, now)
            &&& linkage_fault(trusted, candidate) is None
            &&& commit_fault(
                candidate.validator_set.validators,
                candidate.signed_header.commit.votes,
            ) is None
            &&& trusted.height() < candidate.height()
        },
{
    reveal(spec_verify_single);
}

/// Whether an anchor of time `trusted_time` has expired at `now`.
pub fn expired(trusted_time: Time, trusting_period: Duration, now: Time) -> (r: bool)
    ensures
        r == is_expired(trusted_time, trusting_period, now),
{
    now.nanos >= trusted_time.nanos && now.nanos - trusted_time.nanos >= trusting_period.nanos
}

/// Whether a header of time `header_time` is from the future at `now`.
pub fn from_future(header_time: Time, clock_drift: Duration, now: Time) -> (r: bool)
    ensures
        r == is_from_future(header_time, clock_drift, now),
{
    let limit: u128 = now.nanos as u128 + clock_drift.nanos as u128;
    header_time.nanos as u128 > limit
}

/// Decides on `candidate` against `trusted` at `now`, leaving both with the
/// caller.
pub fn assess(
    trusted: &TrustedState,
    candidate: &LightBlock,
    threshold: TrustThreshold,
    trusting_period: Duration,
    clock_drift: Duration,
    now: Time,
) -> (r: Outcome)
    ensures
        r == spec_verify_single(
            trusted@,
            candidate@,
            threshold,
            trusting_period,
            clock_drift,
            now,
        ),
{
    proof {
        reveal(spec_verify_single);
    }
    let trusted_time: Time = trusted.signed_header.header.time;
    let header_time: Time = candidate.signed_header.header.time;
    if expired(trusted_time, trusting_period, now) {
        return Outcome::Invalid(Reason::Expired { trusted_time, now });
    }
    if from_future(header_time, clock_drift, now) {
        return Outcome::Invalid(Reason::HeaderFromFuture { header_time, now });
    }
    match check_linkage(trusted, candidate) {
        Err(fault) => {
            return Outcome::Invalid(Reason::LinkageMismatch(fault));
        },
        Ok(()) => {},
    }
    match verify_commit(&candidate.signed_header, &candidate.validator_set) {
        Err(reason) => {
            return Outcome::Invalid(reason);
        },
        Ok(()) => {},
    }
    let trusted_height: u64 = trusted.signed_header.header.height;
    if candidate.signed_header.header.height - 1 == trusted_height
        && candidate.validator_set.hash() == trusted.next_validator_set.hash() {
        return Outcome::Trusted;
    }
    let (satisfied, tally) = check_trust_threshold(
        &trusted.next_validator_set,
        &candidate.validator_set,
        &candidate.signed_header.commit,
        threshold,
    );
    if satisfied {
        Outcome::Trusted
    } else {
        Outcome::NotEnoughTrust(tally)
    }
}

/// Verifies `candidate` against `trusted` at `now`.
///
/// The verdict is `Success` with the candidate itself, `NotEnoughTrust` with
/// the tally that fell short, or `Invalid` with the reason, as
/// `spec_verify_single` decides. Nothing but the verdict comes of the call:
/// `trusted` is left as it is.
pub fn verify_single(
    trusted: &TrustedState,
    candidate: LightBlock,
    threshold: TrustThreshold,
    trusting_period: Duration,
    clock_drift: Duration,
    now: Time,
) -> (v: Verdict)
    ensures
        v.outcome() == spec_verify_single(
            trusted@,
            candidate@,
            threshold,
            trusting_period,
            clock_drift,
            now,
        ),
        v matches Verdict::Success(block) ==> block == candidate,
        v is Success ==> trusted@.height() < candidate@.height(),
        v is Success ==> spec_has_quorum(
            spec_signed_power(
                candidate@.validator_set.validators,
                candidate@.signed_header.commit.votes,
            ),
            spec_total_power(candidate@.validator_set.validators),
        ),
        is_expired(trusted@.signed_header.header.time, trusting_period, now) ==> v
            == Verdict::Invalid(
            Reason::Expired { trusted_time: trusted@.signed_header.header.time, now },
        ),
{
    proof {
        reveal(spec_verify_single);
        if commit_fault(
            candidate@.validator_set.validators,
            candidate@.signed_header.commit.votes,
        ) is None {
            lemma_faultless_commit_has_quorum(
                candidate@.validator_set.validators,
                candidate@.signed_header.commit.votes,
            );
        }
    }
    match assess(trusted, &candidate, threshold, trusting_period, clock_drift, now) {
        Outcome::Trusted => Verdict::Success(candidate),
        Outcome::NotEnoughTrust(tally) => Verdict::NotEnoughTrust(tally),
        Outcome::Invalid(reason) => Verdict::Invalid(reason),
    }
}

} // verus!
