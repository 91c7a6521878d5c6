//! Positive counts used for capacities, limits, and budgets.

use vstd::prelude::*;

verus! {

/// A `usize` count that is never zero.
#[derive(Clone, Copy, Debug, PartialEq, Eq, Hash, PartialOrd, Ord, Structural)]
pub struct NonZeroCount {
    value: usize,
}

impl NonZeroCount {
    /// Every count is positive.
    #[verifier::type_invariant]
    pub open spec fn positive(self) -> bool {
        self.value() > 0
    }

    /// The counted value.
    pub closed spec fn value(self) -> usize {
        self.value
    }

    /// Two counts holding the same value are the same count.
    pub proof fn lemma_value_injective(a: NonZeroCount, b: NonZeroCount)
        ensures
            a.value() == b.value() <==> a == b,
    {
    }

    /// Creates a count, or `None` when `value` is zero.
    pub fn new(value: usize) -> (count: Option<NonZeroCount>)
        ensures
            value == 0 ==> count is None,
            value > 0 ==> (count matches Some(c) && c.value() == value),
    {
        if value == 0 {
            None
        } else {
            Some(NonZeroCount { value })
        }
    }

    /// Returns the counted value, which is positive.
    pub fn get(self) -> (value: usize)
        ensures
            value == self.value(),
            value > 0,
    {
        proof {
            use_type_invariant(&self);
        }
        self.value
    }
}

} // verus!
