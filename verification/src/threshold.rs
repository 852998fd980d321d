//! The trust threshold: the fraction of previously trusted voting power that
//! must also back a new block before heights may be skipped.

use vstd::prelude::*;

verus! {

/// A fraction `numerator / denominator` with `0 < numerator / denominator <= 1`.
#[derive(Clone, Copy, Debug, PartialEq, Eq)]
pub struct TrustThreshold {
    numerator: u64,
    denominator: u64,
}

/// Whether `numerator / denominator` lies in `(0, 1]`.
pub open spec fn valid_fraction(numerator: u64, denominator: u64) -> bool {
    0 < numerator <= denominator
}

impl TrustThreshold {
    #[verifier::type_invariant]
    spec fn in_range(&self) -> bool {
        valid_fraction(self.numerator, self.denominator)
    }

    /// The numerator.
    pub closed spec fn spec_numerator(&self) -> u64 {
        self.numerator
    }

    /// The denominator.
    pub closed spec fn spec_denominator(&self) -> u64 {
        self.denominator
    }

    /// The threshold `numerator / denominator`. Fails exactly when the
    /// fraction is zero, is undefined, or is more than one.
    pub fn new(numerator: u64, denominator: u64) -> (r: Option<TrustThreshold>)
        ensures
            r is Some <==> valid_fraction(numerator, denominator),
            r matches Some(t) ==> t.spec_numerator() == numerator && t.spec_denominator()
                == denominator,
    {
        if 0 < numerator && numerator <= denominator {
            Some(TrustThreshold { numerator, denominator })
        } else {
            None
        }
    }

    /// The numerator.
    #[verifier::when_used_as_spec(spec_numerator)]
    pub fn numerator(&self) -> (r: u64)
        ensures
            r == self.spec_numerator(),
            valid_fraction(r, self.spec_denominator()),
    {
        proof {
            use_type_invariant(self);
        }
        self.numerator
    }

    /// The denominator.
    #[verifier::when_used_as_spec(spec_denominator)]
    pub fn denominator(&self) -> (r: u64)
        ensures
            r == self.spec_denominator(),
            valid_fraction(self.spec_numerator(), r),
    {
        proof {
            use_type_invariant(self);
        }
        self.denominator
    }

    /// Whether the threshold is one whole: no block that skips a height can
    /// then be trusted directly, since no power is strictly more than all of
    /// it.
    pub fn is_whole(&self) -> (r: bool)
        ensures
            r == (self.spec_numerator() == self.spec_denominator()),
    {
        self.numerator == self.denominator
    }
}

impl Default for TrustThreshold {
    /// One third.
    fn default() -> (r: TrustThreshold)
        ensures
            r.spec_numerator() == 1,
            r.spec_denominator() == 3,
    {
        TrustThreshold { numerator: 1, denominator: 3 }
    }
}

} // verus!
