use light_client::bisection::{block_at, pivot, verify_to_target, Bisection, Progress};
use light_client::block::{Commit, Header, LightBlock, SignedHeader, TrustedState, Vote};
use light_client::commit::{endorsement_mask, verify_commit};
use light_client::event::{Event, EventData, EventType};
use light_client::linker::check_linkage;
use light_client::power::{
    contains_key, exceeds_fraction, has_quorum, power_of, selected_power, total_power,
};
use light_client::primitives::{Digest, Duration, PeerId, PublicKey, Time};
use light_client::single_step::{assess, expired, from_future, verify_single};
use light_client::threshold::TrustThreshold;
use light_client::trust::{check_trust_threshold, signer_keys};
use light_client::validator::{has_distinct_keys, Validator, ValidatorSet};
use light_client::verdict::{
    Linkage, Outcome, ProviderError, Reason, VerificationError, Verdict, VotingPowerTally,
};
use std::collections::BTreeMap;

const SECOND: u64 = 1_000_000_000;
const A: u8 = 1;
const B: u8 = 2;
const C: u8 = 3;

fn key(n: u8) -> PublicKey {
    PublicKey { bytes: [n; 32] }
}

fn digest(n: u8) -> Digest {
    Digest { bytes: [n; 32] }
}

fn members(list: &[(u8, u64)]) -> Vec<Validator> {
    list.iter().map(|(k, p)| Validator { public_key: key(*k), voting_power: *p }).collect()
}

fn validators(list: &[(u8, u64)], tag: u8) -> ValidatorSet {
    ValidatorSet::new(members(list), digest(tag)).unwrap()
}

fn abc() -> ValidatorSet {
    validators(&[(A, 1), (B, 1), (C, 1)], 10)
}

fn yes() -> Option<Vote> {
    Some(Vote { for_block: true, signature_valid: true })
}

fn forged() -> Option<Vote> {
    Some(Vote { for_block: true, signature_valid: false })
}

fn nil(valid: bool) -> Option<Vote> {
    Some(Vote { for_block: false, signature_valid: valid })
}

fn signed_header(height: u64, nanos: u64, tag: u8, next_tag: u8, votes: Vec<Option<Vote>>) -> SignedHeader {
    SignedHeader {
        header: Header {
            height,
            time: Time { nanos },
            chain_id: "test-chain".to_string(),
            validators_hash: digest(tag),
            next_validators_hash: digest(next_tag),
            last_block_hash: digest(0),
        },
        commit: Commit { round: 0, votes },
    }
}

fn block(height: u64, nanos: u64, set: &ValidatorSet, next: &ValidatorSet, votes: Vec<Option<Vote>>) -> LightBlock {
    LightBlock {
        signed_header: signed_header(height, nanos, set.hash().bytes[0], next.hash().bytes[0], votes),
        validator_set: set.clone(),
        next_validator_set: next.clone(),
        provider: PeerId { bytes: [9; 20] },
    }
}

fn trusted_at(height: u64, nanos: u64, next: &ValidatorSet) -> TrustedState {
    let tag = next.hash().bytes[0];
    TrustedState::new(signed_header(height, nanos, tag, tag, vec![yes(), yes(), yes()]), next.clone())
}

fn period() -> Duration {
    Duration { nanos: 3600 * SECOND }
}

fn drift() -> Duration {
    Duration { nanos: SECOND }
}

fn now() -> Time {
    Time { nanos: 200 * SECOND }
}

fn check(trusted: &TrustedState, candidate: LightBlock) -> Verdict {
    verify_single(trusted, candidate, TrustThreshold::default(), period(), drift(), now())
}

// ---- voting power ----

#[test]
fn total_power_is_the_sum() {
    assert_eq!(total_power(&validators(&[], 1)), 0);
    assert_eq!(total_power(&validators(&[(A, 5)], 1)), 5);
    assert_eq!(total_power(&validators(&[(A, 5), (B, 7), (C, 11)], 1)), 23);
}

#[test]
fn total_power_saturates() {
    assert_eq!(total_power(&validators(&[(A, u64::MAX), (B, 1)], 1)), u64::MAX);
    assert_eq!(total_power(&validators(&[(A, u64::MAX - 1), (B, 1)], 1)), u64::MAX);
    assert_eq!(total_power(&validators(&[(A, u64::MAX / 2 + 1), (B, u64::MAX / 2 + 1), (C, 9)], 1)), u64::MAX);
}

#[test]
fn power_of_counts_members_once() {
    let set = validators(&[(A, 5), (B, 7), (C, 11)], 1);
    assert_eq!(power_of(&set, &vec![]), 0);
    assert_eq!(power_of(&set, &vec![key(B)]), 7);
    assert_eq!(power_of(&set, &vec![key(C), key(A)]), 16);
    assert_eq!(power_of(&set, &vec![key(B), key(B), key(B)]), 7);
    assert_eq!(power_of(&set, &vec![key(9), key(A)]), 5);
    assert_eq!(power_of(&set, &vec![key(A), key(B), key(C)]), 23);
}

#[test]
fn power_of_saturates() {
    let set = validators(&[(A, u64::MAX), (B, 2), (C, 3)], 1);
    assert_eq!(power_of(&set, &vec![key(A), key(B)]), u64::MAX);
    assert_eq!(power_of(&set, &vec![key(C), key(B)]), 5);
}

#[test]
fn selected_power_ignores_what_the_selection_does_not_reach() {
    let list = members(&[(A, 5), (B, 7), (C, 11)]);
    assert_eq!(selected_power(&list, &vec![true]), 5);
    assert_eq!(selected_power(&list, &vec![false, true, true, true, true]), 18);
    assert_eq!(selected_power(&list, &vec![]), 0);
}

#[test]
fn contains_key_finds_what_is_there() {
    assert!(contains_key(&vec![key(A), key(B)], &key(B)));
    assert!(!contains_key(&vec![key(A), key(B)], &key(C)));
    assert!(!contains_key(&vec![], &key(A)));
}

#[test]
fn quorum_is_strictly_more_than_two_thirds() {
    assert!(!has_quorum(0, 0));
    assert!(!has_quorum(2, 3));
    assert!(has_quorum(3, 3));
    assert!(!has_quorum(66, 100));
    assert!(has_quorum(67, 100));
    assert!(!has_quorum(6, 9));
    assert!(has_quorum(7, 9));
    assert!(has_quorum(u64::MAX, u64::MAX));
    assert!(!has_quorum(u64::MAX / 3 * 2, u64::MAX));
}

#[test]
fn exceeds_fraction_does_not_overflow() {
    assert!(exceeds_fraction(u64::MAX, u64::MAX - 1, u64::MAX, u64::MAX));
    assert!(!exceeds_fraction(u64::MAX, u64::MAX, u64::MAX, u64::MAX));
    assert!(exceeds_fraction(34, 100, 1, 3));
    assert!(!exceeds_fraction(33, 99, 1, 3));
    assert!(!exceeds_fraction(0, 0, 1, 3));
}

// ---- validator sets and thresholds ----

#[test]
fn validator_set_is_unique_by_public_key() {
    assert!(ValidatorSet::new(members(&[(A, 1), (B, 1), (A, 2)]), digest(1)).is_none());
    assert!(ValidatorSet::new(members(&[(A, 1), (A, 1)]), digest(1)).is_none());
    assert!(!has_distinct_keys(&members(&[(B, 1), (C, 1), (C, 1)])));
    assert!(has_distinct_keys(&members(&[(A, 1), (B, 1), (C, 1)])));
    let set = ValidatorSet::new(members(&[(A, 1), (B, 1)]), digest(4)).unwrap();
    assert_eq!(set.len(), 2);
    assert_eq!(set.hash(), digest(4));
    assert_eq!(set.validators(), &members(&[(A, 1), (B, 1)]));
    assert_eq!(set.clone(), set);
    assert!(ValidatorSet::new(vec![], digest(1)).is_some());
}

#[test]
fn digests_and_keys_compare_byte_by_byte() {
    let mut other = [5u8; 32];
    other[31] = 6;
    assert_eq!(digest(5), digest(5));
    assert_ne!(digest(5), Digest { bytes: other });
    assert_ne!(key(5), PublicKey { bytes: other });
    assert_eq!(key(5), key(5));
}

#[test]
fn trust_threshold_lies_in_zero_to_one() {
    assert!(TrustThreshold::new(0, 3).is_none());
    assert!(TrustThreshold::new(0, 0).is_none());
    assert!(TrustThreshold::new(1, 0).is_none());
    assert!(TrustThreshold::new(4, 3).is_none());
    let third = TrustThreshold::new(1, 3).unwrap();
    assert_eq!((third.numerator(), third.denominator()), (1, 3));
    assert_eq!(TrustThreshold::default(), third);
    assert!(!third.is_whole());
    let whole = TrustThreshold::new(3, 3).unwrap();
    assert!(whole.is_whole());
}

// ---- commit verifier ----

#[test]
fn commit_with_more_than_two_thirds_is_accepted() {
    let set = validators(&[(A, 2), (B, 1), (C, 1)], 10);
    let sh = signed_header(2, 0, 10, 10, vec![yes(), yes(), None]);
    assert_eq!(verify_commit(&sh, &set), Ok(()));
}

#[test]
fn commit_with_exactly_two_thirds_is_rejected() {
    let sh = signed_header(2, 0, 10, 10, vec![yes(), yes(), None]);
    assert_eq!(verify_commit(&sh, &abc()), Err(Reason::InsufficientSignatures { signed: 2, total: 3 }));
}

#[test]
fn forged_vote_is_rejected_even_after_quorum() {
    let set = validators(&[(A, 10), (B, 1), (C, 1)], 10);
    let sh = signed_header(2, 0, 10, 10, vec![yes(), yes(), forged()]);
    assert_eq!(verify_commit(&sh, &set), Err(Reason::BadSignature { index: 2 }));
}

#[test]
fn first_forged_vote_is_reported() {
    let sh = signed_header(2, 0, 10, 10, vec![yes(), forged(), forged()]);
    assert_eq!(verify_commit(&sh, &abc()), Err(Reason::BadSignature { index: 1 }));
}

#[test]
fn forged_vote_comes_before_missing_quorum() {
    let sh = signed_header(2, 0, 10, 10, vec![forged(), None, None]);
    assert_eq!(verify_commit(&sh, &abc()), Err(Reason::BadSignature { index: 0 }));
}

#[test]
fn forged_vote_that_does_not_count_is_ignored() {
    let set = validators(&[(A, 2), (B, 2), (C, 1)], 10);
    let nil_forged = signed_header(2, 0, 10, 10, vec![yes(), yes(), nil(false)]);
    assert_eq!(verify_commit(&nil_forged, &set), Ok(()));
    let extra_forged = signed_header(2, 0, 10, 10, vec![yes(), yes(), None, forged()]);
    assert_eq!(verify_commit(&extra_forged, &set), Ok(()));
}

#[test]
fn vote_for_nil_adds_no_power() {
    let sh = signed_header(2, 0, 10, 10, vec![yes(), yes(), nil(true)]);
    assert_eq!(verify_commit(&sh, &abc()), Err(Reason::InsufficientSignatures { signed: 2, total: 3 }));
}

#[test]
fn empty_validator_set_has_no_quorum() {
    let sh = signed_header(2, 0, 10, 10, vec![yes()]);
    assert_eq!(verify_commit(&sh, &validators(&[], 1)), Err(Reason::InsufficientSignatures { signed: 0, total: 0 }));
}

#[test]
fn endorsement_mask_marks_valid_votes_for_the_block() {
    assert_eq!(
        endorsement_mask(&vec![yes(), None, forged(), nil(true), nil(false)]),
        vec![true, false, false, false, false]
    );
}

// ---- trust threshold ----

#[test]
fn signer_keys_are_those_of_valid_votes_for_the_block() {
    let set = validators(&[(A, 1), (B, 1), (C, 1), (4, 1)], 10);
    let commit = Commit { round: 0, votes: vec![yes(), nil(true), forged(), yes(), yes()] };
    assert_eq!(signer_keys(&set, &commit), vec![key(A), key(4)]);
}

#[test]
fn trust_threshold_measures_against_the_trusted_total() {
    let trusted = validators(&[(A, 10), (B, 20), (C, 30)], 10);
    let untrusted = validators(&[(7, 100), (B, 1), (8, 100), (A, 1)], 11);
    let commit = Commit { round: 0, votes: vec![yes(), yes(), yes(), None] };
    let third = TrustThreshold::default();
    assert_eq!(
        check_trust_threshold(&trusted, &untrusted, &commit, third),
        (false, VotingPowerTally { total: 60, tallied: 20, threshold: third })
    );
    let commit = Commit { round: 0, votes: vec![None, yes(), None, yes()] };
    assert_eq!(
        check_trust_threshold(&trusted, &untrusted, &commit, third),
        (true, VotingPowerTally { total: 60, tallied: 30, threshold: third })
    );
    let half = TrustThreshold::new(1, 2).unwrap();
    assert_eq!(
        check_trust_threshold(&trusted, &untrusted, &commit, half),
        (false, VotingPowerTally { total: 60, tallied: 30, threshold: half })
    );
}

#[test]
fn whole_threshold_is_never_exceeded() {
    let set = abc();
    let commit = Commit { round: 0, votes: vec![yes(), yes(), yes()] };
    let whole = TrustThreshold::new(1, 1).unwrap();
    assert_eq!(
        check_trust_threshold(&set, &set, &commit, whole),
        (false, VotingPowerTally { total: 3, tallied: 3, threshold: whole })
    );
}

// ---- linker ----

#[test]
fn linkage_faults_are_told_apart_in_order() {
    let set = abc();
    let trusted = trusted_at(5, 0, &set);
    assert_eq!(check_linkage(&trusted, &block(6, 0, &set, &set, vec![])), Ok(()));
    assert_eq!(
        check_linkage(&trusted, &block(5, 0, &set, &set, vec![])),
        Err(Linkage::Height { trusted: 5, candidate: 5 })
    );
    assert_eq!(
        check_linkage(&trusted, &block(4, 0, &set, &set, vec![])),
        Err(Linkage::Height { trusted: 5, candidate: 4 })
    );
    let mut wrong = block(6, 0, &set, &set, vec![]);
    wrong.signed_header.header.validators_hash = digest(77);
    wrong.signed_header.header.next_validators_hash = digest(78);
    wrong.signed_header.header.chain_id = "elsewhere".to_string();
    assert_eq!(
        check_linkage(&trusted, &wrong),
        Err(Linkage::ValidatorsHash { declared: digest(77), supplied: digest(10) })
    );
    wrong.signed_header.header.validators_hash = digest(10);
    assert_eq!(
        check_linkage(&trusted, &wrong),
        Err(Linkage::NextValidatorsHash { declared: digest(78), supplied: digest(10) })
    );
    wrong.signed_header.header.next_validators_hash = digest(10);
    assert_eq!(check_linkage(&trusted, &wrong), Err(Linkage::ChainId));
}

// ---- single step ----

#[test]
fn adjacent_block_signed_by_all_of_the_next_validators_is_trusted() {
    let set = abc();
    let trusted = trusted_at(1, 100 * SECOND, &set);
    let candidate = block(2, 110 * SECOND, &set, &set, vec![yes(), yes(), yes()]);
    assert_eq!(check(&trusted, candidate.clone()), Verdict::Success(candidate));
}

#[test]
fn adjacent_block_signed_by_more_than_two_thirds_is_trusted() {
    let set = validators(&[(A, 2), (B, 1), (C, 1)], 10);
    let trusted = trusted_at(1, 100 * SECOND, &set);
    let candidate = block(2, 110 * SECOND, &set, &set, vec![yes(), yes(), None]);
    assert_eq!(check(&trusted, candidate.clone()), Verdict::Success(candidate));
}

#[test]
fn adjacent_block_signed_by_two_of_three_equals_lacks_the_quorum() {
    let set = abc();
    let trusted = trusted_at(1, 100 * SECOND, &set);
    let candidate = block(2, 110 * SECOND, &set, &set, vec![yes(), yes(), None]);
    assert_eq!(
        check(&trusted, candidate),
        Verdict::Invalid(Reason::InsufficientSignatures { signed: 2, total: 3 })
    );
}

#[test]
fn adjacent_block_signed_by_one_of_three_lacks_the_quorum() {
    let set = abc();
    let trusted = trusted_at(1, 100 * SECOND, &set);
    let candidate = block(2, 110 * SECOND, &set, &set, vec![yes(), None, None]);
    assert_eq!(
        check(&trusted, candidate),
        Verdict::Invalid(Reason::InsufficientSignatures { signed: 1, total: 3 })
    );
}

#[test]
fn distant_block_of_disjoint_validators_lacks_trust() {
    let set = abc();
    let others = validators(&[(4, 1), (5, 1), (6, 1)], 20);
    let trusted = trusted_at(1, 100 * SECOND, &set);
    let candidate = block(100, 110 * SECOND, &others, &others, vec![yes(), yes(), yes()]);
    assert_eq!(
        check(&trusted, candidate),
        Verdict::NotEnoughTrust(VotingPowerTally { total: 3, tallied: 0, threshold: TrustThreshold::default() })
    );
}

#[test]
fn adjacent_block_of_another_validator_set_falls_to_the_threshold() {
    let set = abc();
    let others = validators(&[(4, 1), (5, 1), (6, 1)], 20);
    let trusted = trusted_at(1, 100 * SECOND, &set);
    let candidate = block(2, 110 * SECOND, &others, &others, vec![yes(), yes(), yes()]);
    assert_eq!(
        check(&trusted, candidate),
        Verdict::NotEnoughTrust(VotingPowerTally { total: 3, tallied: 0, threshold: TrustThreshold::default() })
    );
    let overlapping = validators(&[(A, 1), (B, 1), (6, 1)], 21);
    let candidate = block(2, 110 * SECOND, &overlapping, &overlapping, vec![yes(), yes(), yes()]);
    assert_eq!(check(&trusted, candidate.clone()), Verdict::Success(candidate));
}

#[test]
fn distant_block_needs_more_than_a_third_of_trusted_power() {
    let set = abc();
    let trusted = trusted_at(1, 100 * SECOND, &set);
    let one_common = validators(&[(A, 1), (5, 1), (6, 1)], 20);
    let candidate = block(9, 110 * SECOND, &one_common, &one_common, vec![yes(), yes(), yes()]);
    assert_eq!(
        check(&trusted, candidate),
        Verdict::NotEnoughTrust(VotingPowerTally { total: 3, tallied: 1, threshold: TrustThreshold::default() })
    );
    let two_common = validators(&[(A, 1), (B, 1), (6, 1)], 21);
    let candidate = block(9, 110 * SECOND, &two_common, &two_common, vec![yes(), yes(), yes()]);
    assert_eq!(check(&trusted, candidate.clone()), Verdict::Success(candidate));
}

#[test]
fn expired_anchor_rejects_a_perfectly_valid_candidate() {
    let set = abc();
    let trusted = trusted_at(1, 100 * SECOND, &set);
    let candidate = block(2, 110 * SECOND, &set, &set, vec![yes(), yes(), yes()]);
    let at = |nanos: u64| {
        verify_single(&trusted, candidate.clone(), TrustThreshold::default(), period(), drift(), Time { nanos })
    };
    let end = 100 * SECOND + period().nanos;
    assert_eq!(
        at(end + 1),
        Verdict::Invalid(Reason::Expired { trusted_time: Time { nanos: 100 * SECOND }, now: Time { nanos: end + 1 } })
    );
    assert_eq!(
        at(end),
        Verdict::Invalid(Reason::Expired { trusted_time: Time { nanos: 100 * SECOND }, now: Time { nanos: end } })
    );
    assert_eq!(at(end - 1), Verdict::Success(candidate.clone()));
}

#[test]
fn expiry_comes_before_every_other_fault() {
    let set = abc();
    let trusted = trusted_at(5, 100 * SECOND, &set);
    let mut broken = block(3, u64::MAX, &set, &set, vec![forged()]);
    broken.signed_header.header.chain_id = "elsewhere".to_string();
    let late = Time { nanos: 100 * SECOND + period().nanos + 1 };
    assert_eq!(
        verify_single(&trusted, broken, TrustThreshold::default(), period(), drift(), late),
        Verdict::Invalid(Reason::Expired { trusted_time: Time { nanos: 100 * SECOND }, now: late })
    );
}

#[test]
fn anchor_from_the_future_has_not_expired() {
    assert!(!expired(Time { nanos: 500 }, Duration { nanos: 0 }, Time { nanos: 499 }));
    assert!(expired(Time { nanos: 500 }, Duration { nanos: 0 }, Time { nanos: 500 }));
    assert!(expired(Time { nanos: 0 }, Duration { nanos: u64::MAX }, Time { nanos: u64::MAX }));
    assert!(!expired(Time { nanos: 1 }, Duration { nanos: u64::MAX }, Time { nanos: u64::MAX }));
}

#[test]
fn header_from_the_future_is_rejected() {
    let set = abc();
    let trusted = trusted_at(1, 100 * SECOND, &set);
    let limit = now().nanos + drift().nanos;
    let candidate = block(2, limit + 1, &set, &set, vec![yes(), yes(), yes()]);
    assert_eq!(
        check(&trusted, candidate),
        Verdict::Invalid(Reason::HeaderFromFuture { header_time: Time { nanos: limit + 1 }, now: now() })
    );
    let candidate = block(2, limit, &set, &set, vec![yes(), yes(), yes()]);
    assert_eq!(check(&trusted, candidate.clone()), Verdict::Success(candidate));
    assert!(!from_future(Time { nanos: u64::MAX }, Duration { nanos: 1 }, Time { nanos: u64::MAX }));
    assert!(from_future(Time { nanos: u64::MAX }, Duration { nanos: 1 }, Time { nanos: u64::MAX - 2 }));
}

#[test]
fn broken_link_is_rejected_before_the_commit_is_read() {
    let set = abc();
    let trusted = trusted_at(4, 100 * SECOND, &set);
    let candidate = block(4, 110 * SECOND, &set, &set, vec![forged()]);
    assert_eq!(
        check(&trusted, candidate),
        Verdict::Invalid(Reason::LinkageMismatch(Linkage::Height { trusted: 4, candidate: 4 }))
    );
}

#[test]
fn faulty_commit_is_rejected_before_trust_is_measured() {
    let set = abc();
    let others = validators(&[(4, 1), (5, 1), (6, 1)], 20);
    let trusted = trusted_at(1, 100 * SECOND, &set);
    let candidate = block(50, 110 * SECOND, &others, &others, vec![yes(), forged(), yes()]);
    assert_eq!(check(&trusted, candidate), Verdict::Invalid(Reason::BadSignature { index: 1 }));
}

#[test]
fn verdict_is_the_same_when_asked_again() {
    let set = abc();
    let others = validators(&[(A, 1), (5, 1), (6, 1)], 20);
    let trusted = trusted_at(1, 100 * SECOND, &set);
    for candidate in [
        block(2, 110 * SECOND, &set, &set, vec![yes(), yes(), yes()]),
        block(2, 110 * SECOND, &set, &set, vec![yes(), None, None]),
        block(9, 110 * SECOND, &others, &others, vec![yes(), yes(), yes()]),
    ] {
        let first = check(&trusted, candidate.clone());
        let second = check(&trusted.clone(), candidate.clone());
        assert_eq!(first, second);
        assert_eq!(
            assess(&trusted, &candidate, TrustThreshold::default(), period(), drift(), now()),
            assess(&trusted, &candidate, TrustThreshold::default(), period(), drift(), now())
        );
    }
}

#[test]
fn assess_and_verify_single_agree() {
    let set = abc();
    let trusted = trusted_at(1, 100 * SECOND, &set);
    let candidate = block(2, 110 * SECOND, &set, &set, vec![yes(), yes(), yes()]);
    assert_eq!(
        assess(&trusted, &candidate, TrustThreshold::default(), period(), drift(), now()),
        Outcome::Trusted
    );
    assert!(check(&trusted, candidate).is_success());
}

#[test]
fn verdict_turns_into_a_result() {
    let set = abc();
    let b = block(2, 0, &set, &set, vec![]);
    assert_eq!(Verdict::Success(b.clone()).into_result(), Ok(b));
    let tally = VotingPowerTally { total: 3, tallied: 1, threshold: TrustThreshold::default() };
    assert_eq!(Verdict::NotEnoughTrust(tally).into_result(), Err(VerificationError::NotEnoughTrust(tally)));
    assert_eq!(
        Verdict::Invalid(Reason::BadSignature { index: 4 }).into_result(),
        Err(VerificationError::Invalid(Reason::BadSignature { index: 4 }))
    );
}

#[test]
fn successful_verifications_raise_the_trusted_height() {
    let set = abc();
    let mut trusted = trusted_at(1, 100 * SECOND, &set);
    let mut last = trusted.height();
    for height in [2u64, 3, 7, 8, 20] {
        let candidate = block(height, 110 * SECOND, &set, &set, vec![yes(), yes(), yes()]);
        match check(&trusted, candidate) {
            Verdict::Success(b) => {
                trusted = b.into_trusted();
                assert!(trusted.height() > last);
                last = trusted.height();
            }
            other => panic!("unexpected verdict {:?}", other),
        }
    }
    assert_eq!(last, 20);
    let below = block(20, 110 * SECOND, &set, &set, vec![yes(), yes(), yes()]);
    assert!(!check(&trusted, below).is_success());
}

// ---- bisection ----

/// Validator sets that change by one member per height: the set at height
/// `h` holds the keys `h`, `h + 1` and `h + 2`.
fn rolling(height: u64) -> ValidatorSet {
    let h = height as u8;
    validators(&[(h, 1), (h + 1, 1), (h + 2, 1)], 100 + h)
}

fn rolling_chain(upto: u64) -> Vec<LightBlock> {
    (1..=upto)
        .map(|h| block(h, (100 + h) * SECOND, &rolling(h), &rolling(h + 1), vec![yes(), yes(), yes()]))
        .collect()
}

fn rolling_trusted() -> TrustedState {
    rolling_chain(1).remove(0).into_trusted()
}

fn to_target(trusted: TrustedState, target: u64, blocks: &Vec<LightBlock>) -> Result<LightBlock, VerificationError> {
    verify_to_target(trusted, target, blocks, TrustThreshold::default(), period(), drift(), now())
}

#[test]
fn pivot_is_halfway_rounded_down() {
    assert_eq!(pivot(1, 100), 50);
    assert_eq!(pivot(1, 2), 1);
    assert_eq!(pivot(1, 3), 2);
    assert_eq!(pivot(7, 7), 7);
    assert_eq!(pivot(0, u64::MAX), u64::MAX / 2);
    assert_eq!(pivot(u64::MAX - 1, u64::MAX), u64::MAX - 1);
}

#[test]
fn block_at_finds_the_first_block_of_a_height() {
    let chain = rolling_chain(5);
    assert_eq!(block_at(&chain, 3), Ok(chain[2].clone()));
    assert_eq!(block_at(&chain, 6), Err(ProviderError::NotFound));
    assert_eq!(block_at(&vec![], 1), Err(ProviderError::NotFound));
    let mut doubled = rolling_chain(2);
    let mut second = doubled[1].clone();
    second.provider = PeerId { bytes: [1; 20] };
    doubled.push(second);
    assert_eq!(block_at(&doubled, 2), Ok(doubled[1].clone()));
}

#[test]
fn direct_trust_needs_one_step() {
    let chain = rolling_chain(3);
    // the set at height 3 shares two of three members with the next set of height 1
    assert_eq!(to_target(rolling_trusted(), 3, &chain), Ok(chain[2].clone()));
    let only_target = vec![chain[2].clone()];
    assert_eq!(to_target(rolling_trusted(), 3, &only_target), Ok(chain[2].clone()));
}

#[test]
fn bisection_bridges_a_gap_through_pivots() {
    let chain = rolling_chain(12);
    assert_eq!(to_target(rolling_trusted(), 12, &chain), Ok(chain[11].clone()));
    // the pivots that the search takes from 1 to 12 are 6, 3 and then upward
    let direct = check_rolling(&rolling_trusted(), &chain[11]);
    assert!(matches!(direct, Outcome::NotEnoughTrust(_)));
}

fn check_rolling(trusted: &TrustedState, candidate: &LightBlock) -> Outcome {
    assess(trusted, candidate, TrustThreshold::default(), period(), drift(), now())
}

#[test]
fn bisection_needs_the_pivot_blocks() {
    let chain = rolling_chain(12);
    let sparse: Vec<LightBlock> = chain.iter().filter(|b| b.height() != 6).cloned().collect();
    assert_eq!(
        to_target(rolling_trusted(), 12, &sparse),
        Err(VerificationError::Provider { height: 6, error: ProviderError::NotFound })
    );
    assert_eq!(
        to_target(rolling_trusted(), 13, &chain),
        Err(VerificationError::Provider { height: 13, error: ProviderError::NotFound })
    );
}

#[test]
fn bisection_fails_for_good_between_adjacent_heights_without_overlap() {
    let set = abc();
    let others = validators(&[(4, 1), (5, 1), (6, 1)], 20);
    let trusted = trusted_at(1, 100 * SECOND, &set);
    let chain: Vec<LightBlock> = (2..=100)
        .map(|h| block(h, 110 * SECOND, &others, &others, vec![yes(), yes(), yes()]))
        .collect();
    assert_eq!(
        to_target(trusted, 100, &chain),
        Err(VerificationError::Invalid(Reason::InsufficientTrustUnrecoverable {
            trusted_height: 1,
            target_height: 2,
        }))
    );
}

#[test]
fn bisection_never_goes_around_an_invalid_block() {
    let mut chain = rolling_chain(12);
    chain[5].signed_header.commit.votes[0] = forged();
    assert_eq!(
        to_target(rolling_trusted(), 12, &chain),
        Err(VerificationError::Invalid(Reason::BadSignature { index: 0 }))
    );
}

#[test]
fn bisection_rejects_a_block_served_for_another_height() {
    let chain = rolling_chain(3);
    let search = Bisection::start(rolling_trusted(), 3, TrustThreshold::default(), period(), drift(), now());
    assert_eq!(search.wanted(), 3);
    match search.advance(Ok(chain[1].clone())) {
        Progress::Done(result) => assert_eq!(
            result,
            Err(VerificationError::Invalid(Reason::LinkageMismatch(Linkage::ServedHeight {
                requested: 3,
                served: 2,
            })))
        ),
        Progress::Continue(_) => panic!("the search went on"),
    }
}

#[test]
fn bisection_never_returns_a_block_below_or_at_the_anchor() {
    let chain = rolling_chain(3);
    let trusted = chain[2].clone().into_trusted();
    assert_eq!(
        to_target(trusted, 2, &chain),
        Err(VerificationError::Invalid(Reason::LinkageMismatch(Linkage::Height { trusted: 3, candidate: 2 })))
    );
}

#[test]
fn bisection_with_an_expired_anchor_fails_at_once() {
    let chain = rolling_chain(3);
    let late = Time { nanos: 101 * SECOND + period().nanos };
    assert_eq!(
        verify_to_target(rolling_trusted(), 2, &chain, TrustThreshold::default(), period(), drift(), late),
        Err(VerificationError::Invalid(Reason::Expired { trusted_time: Time { nanos: 101 * SECOND }, now: late }))
    );
}

#[test]
fn machine_asks_for_the_target_then_the_pivots() {
    let chain = rolling_chain(12);
    let mut search = Bisection::start(rolling_trusted(), 12, TrustThreshold::default(), period(), drift(), now());
    let mut asked: Vec<u64> = Vec::new();
    let result = loop {
        let height = search.wanted();
        asked.push(height);
        assert!(search.anchor().height() < height);
        match search.advance(block_at(&chain, height)) {
            Progress::Done(result) => break result,
            Progress::Continue(next) => search = next,
        }
    };
    assert_eq!(result, Ok(chain[11].clone()));
    assert_eq!(asked, vec![12, 6, 3, 6, 4, 6, 12, 9, 7, 9, 12, 10, 12]);
}

#[test]
fn machine_passes_a_provider_failure_on() {
    let search = Bisection::start(rolling_trusted(), 9, TrustThreshold::default(), period(), drift(), now());
    match search.advance(Err(ProviderError::Timeout)) {
        Progress::Done(result) => {
            assert_eq!(result, Err(VerificationError::Provider { height: 9, error: ProviderError::Timeout }))
        }
        Progress::Continue(_) => panic!("the search went on"),
    }
}

// ---- events ----

#[test]
fn event_type_tells_new_blocks_and_transactions_apart() {
    let event = |data: EventData| Event { query: "tm.event = 'NewBlock'".to_string(), data, events: None };
    assert_eq!(event(EventData::NewBlock { height: Some(5) }).event_type(), Some(EventType::NewBlock));
    assert_eq!(event(EventData::NewBlock { height: None }).event_type(), Some(EventType::NewBlock));
    assert_eq!(
        event(EventData::Tx { block_height: 5, index: Some(0), tx: vec![1, 2, 3] }).event_type(),
        Some(EventType::Tx)
    );
    assert_eq!(event(EventData::GenericJsonEvent("{}".to_string())).event_type(), None);
}

#[test]
fn event_type_does_not_depend_on_query_or_attributes() {
    let mut attributes: BTreeMap<String, Vec<String>> = BTreeMap::new();
    attributes.insert("tx.height".to_string(), vec!["5".to_string()]);
    let event = Event {
        query: String::new(),
        data: EventData::GenericJsonEvent("{\"type\":\"tendermint/event/Tx\"}".to_string()),
        events: Some(attributes),
    };
    assert_eq!(event.event_type(), None);
    assert_eq!(event.clone(), event);
}
