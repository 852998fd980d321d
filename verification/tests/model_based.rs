use light_client::block::{Commit, Header, LightBlock, SignedHeader, TrustedState, Vote};
use light_client::primitives::{Digest, Duration, PeerId, PublicKey, Time};
use light_client::single_step::verify_single;
use light_client::threshold::TrustThreshold;
use light_client::validator::{Validator, ValidatorSet};

const SECOND: u64 = 1_000_000_000;

/// An abstraction of the verification verdict
#[derive(Clone, Debug, PartialEq)]
pub enum LiteVerdict {
    /// verified successfully
    OK,
    /// outside of trusting period
    FailedTrustingPeriod,
    /// block verification based on the header and commit structure failed
    FailedVerification,
    /// passed block verification, but the validator set is too different to verify it
    CannotVerify,
}

struct Initial {
    signed_header: SignedHeader,
    next_validator_set: ValidatorSet,
    trusting_period: Duration,
}

/// A single-step test case: an initial trusted block, plus a sequence of
/// input blocks, each with the expected verdict. The trusted state is
/// updated only if the verdict is "OK".
struct SingleStepTestCase {
    description: String,
    initial: Initial,
    input: Vec<BlockVerdict>,
}

/// A block together with the time when it is checked, and the expected verdict
struct BlockVerdict {
    block: LightBlock,
    now: Time,
    verdict: LiteVerdict,
}

fn single_step_test(tc: SingleStepTestCase) {
    println!("  > {}", tc.description);
    let mut latest_trusted = TrustedState::new(
        tc.initial.signed_header.clone(),
        tc.initial.next_validator_set.clone(),
    );
    let clock_drift = Duration { nanos: SECOND };
    let trusting_period: Duration = tc.initial.trusting_period;
    for (i, input) in tc.input.iter().enumerate() {
        println!("    > step {}, expecting {:?}", i, input.verdict);
        let now = input.now;
        match verify_single(
            &latest_trusted,
            input.block.clone(),
            TrustThreshold::default(),
            trusting_period,
            clock_drift,
            now,
        )
        .into_result()
        {
            Ok(new_state) => {
                assert_eq!(input.verdict, LiteVerdict::OK);
                let expected_state: LightBlock = input.block.clone();
                assert_eq!(new_state, expected_state);
                latest_trusted =
                    TrustedState::new(new_state.signed_header, new_state.next_validator_set);
            }
            Err(e) => {
                println!("      > lite: {:?}", e);
                assert_ne!(input.verdict, LiteVerdict::OK);
            }
        }
    }
}

fn validators(members: &[(u8, u64)], tag: u8) -> ValidatorSet {
    let list: Vec<Validator> = members
        .iter()
        .map(|(key, power)| Validator {
            public_key: PublicKey { bytes: [*key; 32] },
            voting_power: *power,
        })
        .collect();
    ValidatorSet::new(list, Digest { bytes: [tag; 32] }).unwrap()
}

fn header(height: u64, seconds: u64, tag: u8, next_tag: u8, votes: Vec<Option<Vote>>) -> SignedHeader {
    SignedHeader {
        header: Header {
            height,
            time: Time { nanos: seconds * SECOND },
            chain_id: "test-chain".to_string(),
            validators_hash: Digest { bytes: [tag; 32] },
            next_validators_hash: Digest { bytes: [next_tag; 32] },
            last_block_hash: Digest { bytes: [0; 32] },
        },
        commit: Commit { round: 0, votes },
    }
}

fn block(
    height: u64,
    seconds: u64,
    set: &ValidatorSet,
    next: &ValidatorSet,
    votes: Vec<Option<Vote>>,
) -> LightBlock {
    LightBlock {
        signed_header: header(
            height,
            seconds,
            set.hash().bytes[0],
            next.hash().bytes[0],
            votes,
        ),
        validator_set: set.clone(),
        next_validator_set: next.clone(),
        provider: PeerId { bytes: [9; 20] },
    }
}

fn yes() -> Option<Vote> {
    Some(Vote { for_block: true, signature_valid: true })
}

#[test]
fn run_single_step_tests() {
    let first = validators(&[(1, 50), (2, 50), (3, 50), (4, 50)], 1);
    let second = validators(&[(1, 50), (2, 50), (5, 50), (6, 50)], 2);
    let third = validators(&[(7, 50), (8, 50), (9, 50)], 3);
    let everyone = |n: usize| -> Vec<Option<Vote>> { (0..n).map(|_| yes()).collect() };
    let hour: u64 = 3600;

    // static model-based single-step test
    single_step_test(SingleStepTestCase {
        description: "trust moves upward block by block and across gaps".to_string(),
        initial: Initial {
            signed_header: header(1, 1_000, 1, 1, everyone(4)),
            next_validator_set: first.clone(),
            trusting_period: Duration { nanos: 2 * hour * SECOND },
        },
        input: vec![
            BlockVerdict {
                block: block(2, 1_010, &first, &first, everyone(4)),
                now: Time { nanos: 1_020 * SECOND },
                verdict: LiteVerdict::OK,
            },
            BlockVerdict {
                block: block(4, 1_030, &second, &second, everyone(4)),
                now: Time { nanos: 1_040 * SECOND },
                verdict: LiteVerdict::OK,
            },
            BlockVerdict {
                block: block(7, 1_050, &third, &third, everyone(3)),
                now: Time { nanos: 1_060 * SECOND },
                verdict: LiteVerdict::CannotVerify,
            },
            BlockVerdict {
                block: block(3, 1_025, &first, &second, everyone(4)),
                now: Time { nanos: 1_060 * SECOND },
                verdict: LiteVerdict::FailedVerification,
            },
            BlockVerdict {
                block: block(5, 1_050, &second, &third, vec![yes(), None, None, yes()]),
                now: Time { nanos: 1_060 * SECOND },
                verdict: LiteVerdict::FailedVerification,
            },
            BlockVerdict {
                block: block(5, 1_050, &second, &third, everyone(4)),
                now: Time { nanos: 1_060 * SECOND },
                verdict: LiteVerdict::OK,
            },
            BlockVerdict {
                block: block(6, 1_055, &third, &third, everyone(3)),
                now: Time { nanos: (1_050 + 2 * hour) * SECOND },
                verdict: LiteVerdict::FailedTrustingPeriod,
            },
            BlockVerdict {
                block: block(6, 1_055, &third, &third, everyone(3)),
                now: Time { nanos: (1_050 + 2 * hour) * SECOND - 1 },
                verdict: LiteVerdict::OK,
            },
        ],
    });

    // a second case: nothing is accepted once the first block has expired
    single_step_test(SingleStepTestCase {
        description: "an expired anchor accepts nothing".to_string(),
        initial: Initial {
            signed_header: header(1, 1_000, 1, 1, everyone(4)),
            next_validator_set: first.clone(),
            trusting_period: Duration { nanos: hour * SECOND },
        },
        input: vec![
            BlockVerdict {
                block: block(2, 1_010, &first, &first, everyone(4)),
                now: Time { nanos: (1_000 + hour) * SECOND },
                verdict: LiteVerdict::FailedTrustingPeriod,
            },
            BlockVerdict {
                block: block(3, 1_020, &first, &first, everyone(4)),
                now: Time { nanos: (1_000 + 2 * hour) * SECOND },
                verdict: LiteVerdict::FailedTrustingPeriod,
            },
        ],
    });
}
