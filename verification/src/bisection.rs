//! The bisection verifier: from a trusted state to a target height, narrowing
//! the gap by halves where direct trust is lacking.
//!
//! Fetching a block is not done here. The search is a state machine: it names
//! the height it wants, is handed what the block source answered, and either
//! goes on or ends. `verify_to_target` runs it to the end over blocks that are
//! already at hand.

use crate::block::{LightBlock, LightBlockView, TrustedState, TrustedStateView};
use crate::primitives::{Duration, Time};
use crate::single_step::{assess, lemma_not_invalid_passed_checks, spec_verify_single};
use crate::threshold::TrustThreshold;
use crate::verdict::{Linkage, Outcome, ProviderError, Reason, VerificationError};
use vstd::prelude::*;

verus! {

/// The height halfway between an anchor and a target, rounded down.
pub open spec fn spec_pivot(trusted_height: u64, target_height: u64) -> int {
    trusted_height + (target_height - trusted_height) / 2
}

/// The result of verifying from `trusted` to `target_height` when the block
/// source answers `source(h)` whenever it is asked for height `h`.
///
/// The block at the target is fetched and verified against `trusted`. Where
/// that succeeds, the block is the result. Where trust is lacking, the block
/// at the pivot is verified first, in the same way, and then the target again
/// from there; with no height strictly between anchor and target to try, the
/// lack of trust is final. Any other failure ends the search at once.
pub open spec fn spec_verify_to_target(
    source: spec_fn(u64) -> Result<LightBlockView, ProviderError>,
    trusted: TrustedStateView,
    target_height: u64,
    threshold: TrustThreshold,
    trusting_period: Duration,
    clock_drift: Duration,
    now: Time,
) -> Result<LightBlockView, VerificationError>
    decreases target_height - trusted.height(),
{
    match source(target_height) {
        Err(error) => Err(VerificationError::Provider { height: target_height, error }),
        Ok(block) => if block.height() != target_height {
            Err(served_wrong_height(target_height, block.height()))
        } else {
            match spec_verify_single(
                trusted,
                block,
                threshold,
                trusting_period,
                clock_drift,
                now,
            ) {
                Outcome::Trusted => Ok(block),
                Outcome::Invalid(reason) => Err(VerificationError::Invalid(reason)),
                Outcome::NotEnoughTrust(_) => {
                    let pivot = spec_pivot(trusted.height(), target_height);
                    if trusted.height() < pivot < target_height {
                        match spec_verify_to_target(
                            source,
                            trusted,
                            pivot as u64,
                            threshold,
                            trusting_period,
                            clock_drift,
                            now,
                        ) {
                            Err(error) => Err(error),
                            Ok(middle) => if middle.height() == pivot {
                                spec_verify_to_target(
                                    source,
                                    middle.as_trusted(),
                                    target_height,
                                    threshold,
                                    trusting_period,
                                    clock_drift,
                                    now,
                                )
                            } else {
                                Err(served_wrong_height(pivot as u64, middle.height()))
                            },
                        }
                    } else {
                        Err(unrecoverable(trusted.height(), target_height))
                    }
                },
            }
        },
    }
}

/// The error for a block that was served for one height and carries another.
pub open spec fn served_wrong_height(requested: u64, served: u64) -> VerificationError {
    VerificationError::Invalid(
        Reason::LinkageMismatch(Linkage::ServedHeight { requested, served }),
    )
}

/// The error for a lack of trust with no height left to try.
pub open spec fn unrecoverable(trusted_height: u64, target_height: u64) -> VerificationError {
    VerificationError::Invalid(
        Reason::InsufficientTrustUnrecoverable { trusted_height, target_height },
    )
}

/// What a block source answered, as a value.
pub open spec fn fetched_view(fetched: Result<LightBlock, ProviderError>) -> Result<
    LightBlockView,
    ProviderError,
> {
    match fetched {
        Ok(block) => Ok(block@),
        Err(error) => Err(error),
    }
}

/// The result of a search, as a value.
pub open spec fn result_view(result: Result<LightBlock, VerificationError>) -> Result<
    LightBlockView,
    VerificationError,
> {
    match result {
        Ok(block) => Ok(block@),
        Err(error) => Err(error),
    }
}

/// A search under way.
///
/// `pending` holds the heights still to be reached: first the target, then
/// each pivot chosen on the way, the last being the height wanted next. The
/// heights fall strictly from first to last, and all but the first lie above
/// the anchor.
#[derive(Debug)]
pub struct Bisection {
    anchor: TrustedState,
    pending: Vec<u64>,
    threshold: TrustThreshold,
    trusting_period: Duration,
    clock_drift: Duration,
    now: Time,
}

/// What a search under way is.
pub struct BisectionView {
    pub anchor: TrustedStateView,
    pub pending: Seq<u64>,
    pub threshold: TrustThreshold,
    pub trusting_period: Duration,
    pub clock_drift: Duration,
    pub now: Time,
}

/// A search after one answer of the block source.
#[derive(Debug)]
pub enum Progress {
    /// The search goes on and wants another block.
    Continue(Bisection),
    /// The search has ended.
    Done(Result<LightBlock, VerificationError>),
}

/// What a step of a search is.
pub enum ProgressView {
    Continue(BisectionView),
    Done(Result<LightBlockView, VerificationError>),
}

impl View for Progress {
    type V = ProgressView;

    open spec fn view(&self) -> ProgressView {
        match *self {
            Progress::Continue(search) => ProgressView::Continue(search@),
            Progress::Done(result) => ProgressView::Done(result_view(result)),
        }
    }
}

impl BisectionView {
    /// The heights fall strictly from first to last, there is at least one,
    /// and all but the first lie above the anchor.
    pub open spec fn well_formed(self) -> bool {
        &&& self.pending.len() >= 1
        &&& forall|i: int, j: int|
            0 <= i < j < self.pending.len() ==> self.pending[i] > self.pending[j]
        &&& forall|i: int| 1 <= i < self.pending.len() ==> self.pending[i] > self.anchor.height()
    }

    /// The height wanted next.
    pub open spec fn wanted(self) -> u64 {
        self.pending.last()
    }

    /// The search after the block source answered `fetched` for the height
    /// wanted.
    ///
    /// A block that the anchor makes trusted becomes the anchor, and the
    /// height is reached; with no height left, the block is the result. Where
    /// trust is lacking, the pivot between anchor and block is wanted next,
    /// if there is one. Anything else ends the search.
    pub open spec fn advance(self, fetched: Result<LightBlockView, ProviderError>) -> ProgressView {
        let target = self.wanted();
        match fetched {
            Err(error) => ProgressView::Done(
                Err(VerificationError::Provider { height: target, error }),
            ),
            Ok(block) => if block.height() != target {
                ProgressView::Done(Err(served_wrong_height(target, block.height())))
            } else {
                match spec_verify_single(
                    self.anchor,
                    block,
                    self.threshold,
                    self.trusting_period,
                    self.clock_drift,
                    self.now,
                ) {
                    Outcome::Trusted => if self.pending.len() == 1 {
                        ProgressView::Done(Ok(block))
                    } else {
                        ProgressView::Continue(
                            BisectionView {
                                anchor: block.as_trusted(),
                                pending: self.pending.drop_last(),
                                ..self
                            },
                        )
                    },
                    Outcome::Invalid(reason) => ProgressView::Done(
                        Err(VerificationError::Invalid(reason)),
                    ),
                    Outcome::NotEnoughTrust(_) => {
                        let pivot = spec_pivot(self.anchor.height(), target);
                        if self.anchor.height() < pivot < target {
                            ProgressView::Continue(
                                BisectionView { pending: self.pending.push(pivot as u64), ..self },
                            )
                        } else {
                            ProgressView::Done(Err(unrecoverable(self.anchor.height(), target)))
                        }
                    },
                }
            },
        }
    }

    /// The result of the search when the block source answers `source(h)`
    /// whenever it is asked for height `h`: each pending height is verified to
    /// in turn, the last first, each from where the one before it ended.
    pub open spec fn outcome(
        self,
        source: spec_fn(u64) -> Result<LightBlockView, ProviderError>,
    ) -> Result<LightBlockView, VerificationError>
        decreases self.pending.len(),
    {
        if self.pending.len() == 0 {
            Err(unrecoverable(self.anchor.height(), self.anchor.height()))
        } else {
            let reached = spec_verify_to_target(
                source,
                self.anchor,
                self.pending.last(),
                self.threshold,
                self.trusting_period,
                self.clock_drift,
                self.now,
            );
            if self.pending.len() == 1 {
                reached
            } else {
                match reached {
                    Err(error) => Err(error),
                    Ok(block) => (BisectionView {
                        anchor: block.as_trusted(),
                        pending: self.pending.drop_last(),
                        ..self
                    }).outcome(source),
                }
            }
        }
    }
}

/// A search that ends in a block ends in the block that the source serves at
/// the target height, and that block carries the target height.
pub proof fn lemma_success_is_at_target(
    source: spec_fn(u64) -> Result<LightBlockView, ProviderError>,
    trusted: TrustedStateView,
    target_height: u64,
    threshold: TrustThreshold,
    trusting_period: Duration,
    clock_drift: Duration,
    now: Time,
)
    ensures
        spec_verify_to_target(
            source,
            trusted,
            target_height,
            threshold,
            trusting_period,
            clock_drift,
            now,
        ) matches Ok(block) ==> block.height() == target_height && source(target_height) == Ok::<
            LightBlockView,
            ProviderError,
        >(block) && trusted.height() < target_height,
    decreases target_height - trusted.height(),
{
    if let Ok(block) = source(target_height) {
        if block.height() == target_height {
            lemma_not_invalid_passed_checks(
                trusted,
                block,
                threshold,
                trusting_period,
                clock_drift,
                now,
            );
            let pivot = spec_pivot(trusted.height(), target_height);
            if spec_verify_single(trusted, block, threshold, trusting_period, clock_drift, now)
                is NotEnoughTrust && trusted.height() < pivot < target_height {
                lemma_success_is_at_target(
                    source,
                    trusted,
                    pivot as u64,
                    threshold,
                    trusting_period,
                    clock_drift,
                    now,
                );
                let first = spec_verify_to_target(
                    source,
                    trusted,
                    pivot as u64,
                    threshold,
                    trusting_period,
                    clock_drift,
                    now,
                );
                if let Ok(middle) = first {
                    lemma_success_is_at_target(
                        source,
                        middle.as_trusted(),
                        target_height,
                        threshold,
                        trusting_period,
                        clock_drift,
                        now,
                    );
                }
            }
        }
    }
}

/// One step of the machine leaves the result of the search as it was: where
/// the step ends the search, it ends with that result; where the search goes
/// on, it goes on toward that result.
pub proof fn lemma_advance_keeps_outcome(
    search: BisectionView,
    source: spec_fn(u64) -> Result<LightBlockView, ProviderError>,
)
    requires
        search.well_formed(),
    ensures
        match search.advance(source(search.wanted())) {
            ProgressView::Done(result) => search.outcome(source) == result,
            ProgressView::Continue(next) => search.outcome(source) == next.outcome(source)
                && next.well_formed(),
        },
{
    let target = search.wanted();
    let reached = spec_verify_to_target(
        source,
        search.anchor,
        target,
        search.threshold,
        search.trusting_period,
        search.clock_drift,
        search.now,
    );
    if let Ok(block) = source(target) {
        if block.height() == target {
            let single = spec_verify_single(
                search.anchor,
                block,
                search.threshold,
                search.trusting_period,
                search.clock_drift,
                search.now,
            );
            let pivot = spec_pivot(search.anchor.height(), target);
            if single is Trusted {
                assert(reached == Ok::<LightBlockView, VerificationError>(block));
                if search.pending.len() > 1 {
                    let next = BisectionView {
                        anchor: block.as_trusted(),
                        pending: search.pending.drop_last(),
                        ..search
                    };
                    assert(next.well_formed());
                }
            } else if single is NotEnoughTrust && search.anchor.height() < pivot < target {
                let next = BisectionView { pending: search.pending.push(pivot as u64), ..search };
                assert(next.pending.drop_last() == search.pending);
                assert(next.wanted() == pivot as u64);
                assert(next.well_formed());
                let first = spec_verify_to_target(
                    source,
                    search.anchor,
                    pivot as u64,
                    search.threshold,
                    search.trusting_period,
                    search.clock_drift,
                    search.now,
                );
                lemma_success_is_at_target(
                    source,
                    search.anchor,
                    pivot as u64,
                    search.threshold,
                    search.trusting_period,
                    search.clock_drift,
                    search.now,
                );
                match first {
                    Err(error) => {
                        assert(reached == Err::<LightBlockView, VerificationError>(error));
                        assert(next.outcome(source) == Err::<LightBlockView, VerificationError>(
                            error,
                        ));
                    },
                    Ok(middle) => {
                        let after = BisectionView { anchor: middle.as_trusted(), ..search };
                        assert(next.outcome(source) == after.outcome(source));
                        assert(reached == spec_verify_to_target(
                            source,
                            middle.as_trusted(),
                            target,
                            search.threshold,
                            search.trusting_period,
                            search.clock_drift,
                            search.now,
                        ));
                    },
                }
            }
        }
    }
}

impl View for Bisection {
    type V = BisectionView;

    closed spec fn view(&self) -> BisectionView {
        BisectionView {
            anchor: self.anchor@,
            pending: self.pending@,
            threshold: self.threshold,
            trusting_period: self.trusting_period,
            clock_drift: self.clock_drift,
            now: self.now,
        }
    }
}

/// The height halfway between an anchor and a target above it, rounded down.
pub fn pivot(trusted_height: u64, target_height: u64) -> (r: u64)
    requires
        trusted_height <= target_height,
    ensures
        r == spec_pivot(trusted_height, target_height),
{
    trusted_height + (target_height - trusted_height) / 2
}

impl Bisection {
    #[verifier::type_invariant]
    spec fn holds_together(&self) -> bool {
        self@.well_formed()
    }

    /// A search from `trusted` to `target_height`, judged at `now`.
    pub fn start(
        trusted: TrustedState,
        target_height: u64,
        threshold: TrustThreshold,
        trusting_period: Duration,
        clock_drift: Duration,
        now: Time,
    ) -> (search: Bisection)
        ensures
            search@ == (BisectionView {
                anchor: trusted@,
                pending: seq![target_height],
                threshold,
                trusting_period,
                clock_drift,
                now,
            }),
            search@.well_formed(),
    {
        let mut pending: Vec<u64> = Vec::new();
        pending.push(target_height);
        assert(pending@ == seq![target_height]);
        Bisection { anchor: trusted, pending, threshold, trusting_period, clock_drift, now }
    }

    /// The height of the block that the search wants next.
    pub fn wanted(&self) -> (height: u64)
        ensures
            height == self@.wanted(),
            self@.well_formed(),
    {
        proof {
            use_type_invariant(self);
        }
        self.pending[self.pending.len() - 1]
    }

    /// The state that the search trusts so far.
    pub fn anchor(&self) -> (anchor: &TrustedState)
        ensures
            anchor@ == self@.anchor,
    {
        &self.anchor
    }

    /// Takes the answer of the block source for the height wanted and moves
    /// the search one step.
    pub fn advance(self, fetched: Result<LightBlock, ProviderError>) -> (progress: Progress)
        ensures
            progress@ == self@.advance(fetched_view(fetched)),
            progress matches Progress::Done(Ok(block)) ==> fetched == Ok::<
                LightBlock,
                ProviderError,
            >(block),
    {
        proof {
            use_type_invariant(&self);
        }
        let target: u64 = self.pending[self.pending.len() - 1];
        let block = match fetched {
            Err(error) => {
                return Progress::Done(Err(VerificationError::Provider { height: target, error }));
            },
            Ok(block) => block,
        };
        let served: u64 = block.signed_header.header.height;
        if served != target {
            return Progress::Done(
                Err(
                    VerificationError::Invalid(
                        Reason::LinkageMismatch(Linkage::ServedHeight { requested: target, served }),
                    ),
                ),
            );
        }
        let outcome = assess(
            &self.anchor,
            &block,
            self.threshold,
            self.trusting_period,
            self.clock_drift,
            self.now,
        );
        proof {
            lemma_not_invalid_passed_checks(
                self.anchor@,
                block@,
                self.threshold,
                self.trusting_period,
                self.clock_drift,
                self.now,
            );
        }
        match outcome {
            Outcome::Trusted => {
                if self.pending.len() == 1 {
                    Progress::Done(Ok(block))
                } else {
                    let mut pending = self.pending;
                    pending.pop();
                    Progress::Continue(
                        Bisection {
                            anchor: block.into_trusted(),
                            pending,
                            threshold: self.threshold,
                            trusting_period: self.trusting_period,
                            clock_drift: self.clock_drift,
                            now: self.now,
                        },
                    )
                }
            },
            Outcome::Invalid(reason) => Progress::Done(Err(VerificationError::Invalid(reason))),
            Outcome::NotEnoughTrust(_) => {
                let trusted_height: u64 = self.anchor.signed_header.header.height;
                let middle: u64 = pivot(trusted_height, target);
                if trusted_height < middle && middle < target {
                    let mut pending = self.pending;
                    pending.push(middle);
                    Progress::Continue(
                        Bisection {
                            anchor: self.anchor,
                            pending,
                            threshold: self.threshold,
                            trusting_period: self.trusting_period,
                            clock_drift: self.clock_drift,
                            now: self.now,
                        },
                    )
                } else {
                    Progress::Done(
                        Err(
                            VerificationError::Invalid(
                                Reason::InsufficientTrustUnrecoverable {
                                    trusted_height,
                                    target_height: target,
                                },
                            ),
                        ),
                    )
                }
            },
        }
    }
}

/// What each of `blocks` is.
pub open spec fn block_views(blocks: Seq<LightBlock>) -> Seq<LightBlockView> {
    blocks.map_values(|block: LightBlock| block@)
}

/// The first of `blocks[from..]` that carries `height`; `NotFound` where none
/// does.
pub open spec fn spec_block_at(blocks: Seq<LightBlockView>, height: u64, from: int) -> Result<
    LightBlockView,
    ProviderError,
>
    decreases blocks.len() - from,
{
    if from < 0 || from >= blocks.len() {
        Err(ProviderError::NotFound)
    } else if blocks[from].height() == height {
        Ok(blocks[from])
    } else {
        spec_block_at(blocks, height, from + 1)
    }
}

/// The block source that answers from `blocks`.
pub open spec fn served_by(blocks: Seq<LightBlockView>) -> spec_fn(u64) -> Result<
    LightBlockView,
    ProviderError,
> {
    |height: u64| spec_block_at(blocks, height, 0)
}

/// A copy of the first of `blocks` that carries `height`.
pub fn block_at(blocks: &Vec<LightBlock>, height: u64) -> (r: Result<LightBlock, ProviderError>)
    ensures
        fetched_view(r) == spec_block_at(block_views(blocks@), height, 0),
{
    let mut i: usize = 0;
    while i < blocks.len()
        invariant
            i <= blocks.len(),
            spec_block_at(block_views(blocks@), height, 0) == spec_block_at(
                block_views(blocks@),
                height,
                i as int,
            ),
        decreases blocks.len() - i,
    {
        assert(block_views(blocks@)[i as int] == blocks@[i as int]@);
        if blocks[i].signed_header.header.height == height {
            return Ok(blocks[i].clone());
        }
        i += 1;
    }
    Err(ProviderError::NotFound)
}

/// Verifies from `trusted` to `target_height` over the blocks at hand, at
/// `now`.
///
/// The result is the block of `blocks` at `target_height`, if a chain of
/// single steps through pivots leads to it, or the first failure on the way,
/// as `spec_verify_to_target` says with `blocks` as the block source. A block
/// that is missing from `blocks` ends the search with a provider error. The
/// search never ends in `NotEnoughTrust`, and never in a block of another
/// height than the target.
pub fn verify_to_target(
    trusted: TrustedState,
    target_height: u64,
    blocks: &Vec<LightBlock>,
    threshold: TrustThreshold,
    trusting_period: Duration,
    clock_drift: Duration,
    now: Time,
) -> (r: Result<LightBlock, VerificationError>)
    ensures
        result_view(r) == spec_verify_to_target(
            served_by(block_views(blocks@)),
            trusted@,
            target_height,
            threshold,
            trusting_period,
            clock_drift,
            now,
        ),
        r matches Ok(block) ==> block@.height() == target_height && trusted@.height()
            < target_height,
        !(r matches Err(VerificationError::NotEnoughTrust(_))),
{
    let ghost source = served_by(block_views(blocks@));
    let ghost start = trusted@;
    let ghost goal = spec_verify_to_target(
        source,
        trusted@,
        target_height,
        threshold,
        trusting_period,
        clock_drift,
        now,
    );
    proof {
        lemma_success_is_at_target(
            source,
            trusted@,
            target_height,
            threshold,
            trusting_period,
            clock_drift,
            now,
        );
        lemma_never_not_enough_trust(
            source,
            trusted@,
            target_height,
            threshold,
            trusting_period,
            clock_drift,
            now,
        );
    }
    let mut search = Bisection::start(
        trusted,
        target_height,
        threshold,
        trusting_period,
        clock_drift,
        now,
    );
    loop
        invariant
            source == served_by(block_views(blocks@)),
            start == trusted@,
            search@.well_formed(),
            search@.outcome(source) == goal,
            goal == spec_verify_to_target(
                served_by(block_views(blocks@)),
                start,
                target_height,
                threshold,
                trusting_period,
                clock_drift,
                now,
            ),
            goal matches Ok(block) ==> block.height() == target_height && start.height()
                < target_height,
            !(goal matches Err(VerificationError::NotEnoughTrust(_))),
        decreases
            search@.pending[0] - search@.anchor.height(),
            search@.wanted() - search@.anchor.height(),
    {
        let height: u64 = search.wanted();
        let fetched = block_at(blocks, height);
        proof {
            lemma_advance_keeps_outcome(search@, source);
            assert(fetched_view(fetched) == source(height));
            if fetched is Ok {
                lemma_not_invalid_passed_checks(
                    search@.anchor,
                    fetched->Ok_0@,
                    threshold,
                    trusting_period,
                    clock_drift,
                    now,
                );
            }
        }
        match search.advance(fetched) {
            Progress::Done(result) => {
                return result;
            },
            Progress::Continue(next) => {
                search = next;
            },
        }
    }
}

/// A search does not end in `NotEnoughTrust`: a lack of trust is bridged, or
/// it is final and reported as such.
pub proof fn lemma_never_not_enough_trust(
    source: spec_fn(u64) -> Result<LightBlockView, ProviderError>,
    trusted: TrustedStateView,
    target_height: u64,
    threshold: TrustThreshold,
    trusting_period: Duration,
    clock_drift: Duration,
    now: Time,
)
    ensures
        !(spec_verify_to_target(
            source,
            trusted,
            target_height,
            threshold,
            trusting_period,
            clock_drift,
            now,
        ) matches Err(VerificationError::NotEnoughTrust(_))),
    decreases target_height - trusted.height(),
{
    if let Ok(block) = source(target_height) {
        if block.height() == target_height {
            let pivot = spec_pivot(trusted.height(), target_height);
            if spec_verify_single(trusted, block, threshold, trusting_period, clock_drift, now)
                is NotEnoughTrust && trusted.height() < pivot < target_height {
                lemma_never_not_enough_trust(
                    source,
                    trusted,
                    pivot as u64,
                    threshold,
                    trusting_period,
                    clock_drift,
                    now,
                );
                let first = spec_verify_to_target(
                    source,
                    trusted,
                    pivot as u64,
                    threshold,
                    trusting_period,
                    clock_drift,
                    now,
                );
                lemma_success_is_at_target(
                    source,
                    trusted,
                    pivot as u64,
                    threshold,
                    trusting_period,
                    clock_drift,
                    now,
                );
                if let Ok(middle) = first {
                    lemma_never_not_enough_trust(
                        source,
                        middle.as_trusted(),
                        target_height,
                        threshold,
                        trusting_period,
                        clock_drift,
                        now,
                    );
                }
            }
        }
    }
}

} // verus!
