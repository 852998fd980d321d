//! The outcomes of verification.

use crate::block::LightBlock;
use crate::primitives::{Digest, Time};
use crate::threshold::TrustThreshold;
use vstd::prelude::*;

verus! {

/// Which link between a candidate and its anchor, or between a header and the
/// validator sets supplied with it, is broken.
#[derive(Clone, Copy, Debug, PartialEq, Eq)]
pub enum Linkage {
    /// The candidate is not above the anchor.
    Height { trusted: u64, candidate: u64 },
    /// The header declares another validator set than the one supplied.
    ValidatorsHash { declared: Digest, supplied: Digest },
    /// The header declares another next validator set than the one supplied.
    NextValidatorsHash { declared: Digest, supplied: Digest },
    /// The candidate belongs to another chain than the anchor.
    ChainId,
    /// The block served for a height carries another height.
    ServedHeight { requested: u64, served: u64 },
}

/// Why a block is rejected for good.
#[derive(Clone, Copy, Debug, PartialEq, Eq)]
pub enum Reason {
    /// The anchor is as old as the trusting period or older.
    Expired { trusted_time: Time, now: Time },
    /// The candidate's time is further ahead of `now` than the clock drift.
    HeaderFromFuture { header_time: Time, now: Time },
    /// A height, digest or chain identifier does not fit.
    LinkageMismatch(Linkage),
    /// The vote in slot `index` counts toward the quorum and its signature is
    /// not valid.
    BadSignature { index: usize },
    /// The validly signed power is not more than two thirds of the total.
    InsufficientSignatures { signed: u64, total: u64 },
    /// Trust is lacking between two heights with no height between them to
    /// try.
    InsufficientTrustUnrecoverable { trusted_height: u64, target_height: u64 },
}

/// The trusted voting power found behind a candidate, and what it was
/// measured against.
#[derive(Clone, Copy, Debug, PartialEq, Eq)]
pub struct VotingPowerTally {
    /// The total voting power of the trusted validator set.
    pub total: u64,
    /// The power of the trusted validators that validly signed the candidate.
    pub tallied: u64,
    /// The threshold that `tallied` was held against.
    pub threshold: TrustThreshold,
}

/// The decision on one candidate, without the candidate itself.
#[derive(Clone, Copy, Debug, PartialEq, Eq)]
pub enum Outcome {
    /// The candidate can be trusted.
    Trusted,
    /// The candidate is well formed, but too little trusted power backs it.
    /// A block between the anchor and the candidate may bridge the gap.
    NotEnoughTrust(VotingPowerTally),
    /// The candidate is rejected for good.
    Invalid(Reason),
}

/// The decision on one candidate.
#[derive(Debug, PartialEq, Eq)]
pub enum Verdict {
    /// The candidate is verified; it comes back as the new trusted block.
    Success(LightBlock),
    /// The candidate is well formed, but too little trusted power backs it.
    NotEnoughTrust(VotingPowerTally),
    /// The candidate is rejected for good.
    Invalid(Reason),
}

/// Why a block source did not serve a block. Such a failure says nothing
/// about any block; the request may be tried again or put to another source.
#[derive(Clone, Copy, Debug, PartialEq, Eq)]
pub enum ProviderError {
    /// The source has no block at that height.
    NotFound,
    /// The source did not answer in time.
    Timeout,
    /// The connection to the source failed.
    Transport,
}

/// Why verification did not end in a trusted block.
#[derive(Clone, Copy, Debug, PartialEq, Eq)]
pub enum VerificationError {
    /// Too little trusted power backs the candidate.
    NotEnoughTrust(VotingPowerTally),
    /// A block is rejected for good.
    Invalid(Reason),
    /// The block at `height` could not be had.
    Provider { height: u64, error: ProviderError },
}

impl Verdict {
    /// The decision without the block.
    pub open spec fn outcome(self) -> Outcome {
        match self {
            Verdict::Success(_) => Outcome::Trusted,
            Verdict::NotEnoughTrust(tally) => Outcome::NotEnoughTrust(tally),
            Verdict::Invalid(reason) => Outcome::Invalid(reason),
        }
    }

    /// The verdict as a `Result`: the verified block, or why there is none.
    pub fn into_result(self) -> (r: Result<LightBlock, VerificationError>)
        ensures
            r == match self {
                Verdict::Success(block) => Ok::<LightBlock, VerificationError>(block),
                Verdict::NotEnoughTrust(tally) => Err(VerificationError::NotEnoughTrust(tally)),
                Verdict::Invalid(reason) => Err(VerificationError::Invalid(reason)),
            },
    {
        match self {
            Verdict::Success(block) => Ok(block),
            Verdict::NotEnoughTrust(tally) => Err(VerificationError::NotEnoughTrust(tally)),
            Verdict::Invalid(reason) => Err(VerificationError::Invalid(reason)),
        }
    }

    /// Whether the candidate was verified.
    pub fn is_success(&self) -> (r: bool)
        ensures
            r == (*self is Success),
    {
        match self {
            Verdict::Success(_) => true,
            _ => false,
        }
    }
}

} // verus!
