//! Headers, commits, light blocks and the trusted anchor.

use crate::primitives::{Digest, PeerId, Time};
use crate::validator::{ValidatorSet, ValidatorSetView};
use vstd::prelude::*;

verus! {

/// The part of a block header that verification reads.
#[derive(Debug, PartialEq, Eq)]
pub struct Header {
    pub height: u64,
    pub time: Time,
    pub chain_id: String,
    /// Digest of the validator set that signs this block.
    pub validators_hash: Digest,
    /// Digest of the validator set that signs the next block.
    pub next_validators_hash: Digest,
    /// Digest of the previous block.
    pub last_block_hash: Digest,
}

/// What a header is.
pub struct HeaderView {
    pub height: u64,
    pub time: Time,
    pub chain_id: Seq<char>,
    pub validators_hash: Digest,
    pub next_validators_hash: Digest,
    pub last_block_hash: Digest,
}

impl View for Header {
    type V = HeaderView;

    open spec fn view(&self) -> HeaderView {
        HeaderView {
            height: self.height,
            time: self.time,
            chain_id: self.chain_id@,
            validators_hash: self.validators_hash,
            next_validators_hash: self.next_validators_hash,
            last_block_hash: self.last_block_hash,
        }
    }
}

impl Clone for Header {
    fn clone(&self) -> (r: Self)
        ensures
            r@ == self@,
    {
        Header {
            height: self.height,
            time: self.time,
            chain_id: self.chain_id.clone(),
            validators_hash: self.validators_hash,
            next_validators_hash: self.next_validators_hash,
            last_block_hash: self.last_block_hash,
        }
    }
}

/// One validator's signed vote, as far as verification reads it.
///
/// The signature itself is checked where the raw bytes and the canonical
/// encoding of the vote are at hand; `signature_valid` carries the outcome of
/// that check. Every vote that is present carries one, whether or not the
/// vote counts toward a quorum.
#[derive(Clone, Copy, Debug, PartialEq, Eq, Structural)]
pub struct Vote {
    /// The vote was cast for the block that the commit belongs to, not for
    /// nil or for another block.
    pub for_block: bool,
    /// The signature is valid for the validator's public key over the
    /// canonical encoding of the vote.
    pub signature_valid: bool,
}

/// The votes gathered for a block: one slot per validator index, each either
/// absent or a signed vote.
#[derive(Debug, PartialEq, Eq)]
pub struct Commit {
    pub round: u32,
    pub votes: Vec<Option<Vote>>,
}

/// What a commit is.
pub struct CommitView {
    pub round: u32,
    pub votes: Seq<Option<Vote>>,
}

impl View for Commit {
    type V = CommitView;

    open spec fn view(&self) -> CommitView {
        CommitView { round: self.round, votes: self.votes@ }
    }
}

impl Clone for Commit {
    fn clone(&self) -> (r: Self)
        ensures
            r@ == self@,
    {
        let mut votes: Vec<Option<Vote>> = Vec::new();
        let mut i: usize = 0;
        while i < self.votes.len()
            invariant
                i <= self.votes.len(),
                votes@ == self.votes@.subrange(0, i as int),
            decreases self.votes.len() - i,
        {
            votes.push(self.votes[i]);
            i += 1;
        }
        assert(votes@ == self.votes@);
        Commit { round: self.round, votes }
    }
}

/// A header together with the commit that signs it.
#[derive(Debug, PartialEq, Eq)]
pub struct SignedHeader {
    pub header: Header,
    pub commit: Commit,
}

/// What a signed header is.
pub struct SignedHeaderView {
    pub header: HeaderView,
    pub commit: CommitView,
}

impl View for SignedHeader {
    type V = SignedHeaderView;

    open spec fn view(&self) -> SignedHeaderView {
        SignedHeaderView { header: self.header@, commit: self.commit@ }
    }
}

impl Clone for SignedHeader {
    fn clone(&self) -> (r: Self)
        ensures
            r@ == self@,
    {
        SignedHeader { header: self.header.clone(), commit: self.commit.clone() }
    }
}

/// A header, its commit, and the two validator sets needed to verify it.
#[derive(Debug, PartialEq, Eq)]
pub struct LightBlock {
    pub signed_header: SignedHeader,
    pub validator_set: ValidatorSet,
    pub next_validator_set: ValidatorSet,
    pub provider: PeerId,
}

/// What a light block is.
pub struct LightBlockView {
    pub signed_header: SignedHeaderView,
    pub validator_set: ValidatorSetView,
    pub next_validator_set: ValidatorSetView,
    pub provider: PeerId,
}

impl LightBlockView {
    /// The height of the block.
    pub open spec fn height(self) -> u64 {
        self.signed_header.header.height
    }

    /// The anchor that this block becomes once it is verified.
    pub open spec fn as_trusted(self) -> TrustedStateView {
        TrustedStateView {
            signed_header: self.signed_header,
            next_validator_set: self.next_validator_set,
        }
    }
}

impl View for LightBlock {
    type V = LightBlockView;

    open spec fn view(&self) -> LightBlockView {
        LightBlockView {
            signed_header: self.signed_header@,
            validator_set: self.validator_set@,
            next_validator_set: self.next_validator_set@,
            provider: self.provider,
        }
    }
}

impl Clone for LightBlock {
    fn clone(&self) -> (r: Self)
        ensures
            r@ == self@,
    {
        LightBlock {
            signed_header: self.signed_header.clone(),
            validator_set: self.validator_set.clone(),
            next_validator_set: self.next_validator_set.clone(),
            provider: self.provider,
        }
    }
}

impl LightBlock {
    /// The height of the block.
    pub fn height(&self) -> (r: u64)
        ensures
            r == self@.height(),
    {
        self.signed_header.header.height
    }

    /// Promotes a verified block to the anchor for what follows it.
    pub fn into_trusted(self) -> (r: TrustedState)
        ensures
            r@ == self@.as_trusted(),
    {
        TrustedState {
            signed_header: self.signed_header,
            next_validator_set: self.next_validator_set,
        }
    }
}

/// The most recently verified block, as far as later verification needs it.
/// It is replaced as a whole on every successful verification.
#[derive(Debug, PartialEq, Eq)]
pub struct TrustedState {
    pub signed_header: SignedHeader,
    pub next_validator_set: ValidatorSet,
}

/// What a trusted state is.
pub struct TrustedStateView {
    pub signed_header: SignedHeaderView,
    pub next_validator_set: ValidatorSetView,
}

impl TrustedStateView {
    /// The height of the anchor.
    pub open spec fn height(self) -> u64 {
        self.signed_header.header.height
    }
}

impl View for TrustedState {
    type V = TrustedStateView;

    open spec fn view(&self) -> TrustedStateView {
        TrustedStateView {
            signed_header: self.signed_header@,
            next_validator_set: self.next_validator_set@,
        }
    }
}

impl Clone for TrustedState {
    fn clone(&self) -> (r: Self)
        ensures
            r@ == self@,
    {
        TrustedState {
            signed_header: self.signed_header.clone(),
            next_validator_set: self.next_validator_set.clone(),
        }
    }
}

impl TrustedState {
    /// An anchor made of a signed header and the validator set that signs the
    /// block after it.
    pub fn new(signed_header: SignedHeader, next_validator_set: ValidatorSet) -> (r: TrustedState)
        ensures
            r.signed_header == signed_header,
            r.next_validator_set == next_validator_set,
    {
        TrustedState { signed_header, next_validator_set }
    }

    /// The height of the anchor.
    pub fn height(&self) -> (r: u64)
        ensures
            r == self@.height(),
    {
        self.signed_header.header.height
    }
}

} // verus!
