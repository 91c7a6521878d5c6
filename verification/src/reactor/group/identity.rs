//! Stable position of one reactor in a static group topology, and the hard
//! topology limit.

use vstd::prelude::*;

use crate::count::NonZeroCount;

verus! {

/// Stable zero-based identity of one reactor in a group.
#[derive(Clone, Copy, Debug, PartialEq, Eq, Hash, PartialOrd, Ord, Structural)]
pub struct ReactorId(u64);

/// Hard count limit for a static reactor group.
#[derive(Clone, Copy, Debug, PartialEq, Eq, Structural)]
pub struct ReactorGroupLimits {
    reactors: NonZeroCount,
}

impl ReactorId {
    /// The zero-based topology position.
    pub closed spec fn value(self) -> u64 {
        self.0
    }

    /// The identity at position `value`.
    pub closed spec fn from_value(value: u64) -> ReactorId {
        ReactorId(value)
    }

    /// The identity at `value` reports `value`.
    pub broadcast proof fn lemma_from_value(value: u64)
        ensures
            #[trigger] ReactorId::from_value(value).value() == value,
    {
    }

    /// An identity is determined by its position.
    pub broadcast proof fn lemma_value_injective(a: ReactorId, b: ReactorId)
        ensures
            #![trigger a.value(), b.value()]
            a.value() == b.value() ==> a == b,
    {
    }

    /// Creates an identity from its fixed-width zero-based topology position.
    pub fn new(position: u64) -> (id: ReactorId)
        ensures
            id.value() == position,
    {
        ReactorId(position)
    }

    /// Returns the fixed-width zero-based topology position.
    pub fn get(self) -> (position: u64)
        ensures
            position == self.value(),
    {
        self.0
    }

    /// The identity of an in-memory position.
    pub fn from_position(position: usize) -> (id: ReactorId)
        ensures
            id.value() == position,
    {
        ReactorId(position as u64)
    }

    /// Returns the in-memory position, or `None` when it does not fit in
    /// `usize`.
    pub fn position(self) -> (position: Option<usize>)
        ensures
            self.value() <= usize::MAX ==> position == Some(self.value() as usize),
            self.value() > usize::MAX ==> position is None,
    {
        if self.0 <= usize::MAX as u64 {
            Some(self.0 as usize)
        } else {
            None
        }
    }
}

impl ReactorGroupLimits {
    /// The maximum retained reactor count.
    pub closed spec fn reactors_spec(self) -> NonZeroCount {
        self.reactors
    }

    /// Creates a group limit with an explicit maximum reactor count.
    pub fn new(reactors: NonZeroCount) -> (limits: ReactorGroupLimits)
        ensures
            limits.reactors_spec() == reactors,
    {
        ReactorGroupLimits { reactors }
    }

    /// Returns the maximum retained reactor count.
    pub fn reactors(self) -> (reactors: NonZeroCount)
        ensures
            reactors == self.reactors_spec(),
    {
        self.reactors
    }
}

pub broadcast group group_reactor_identity {
    ReactorId::lemma_from_value,
    ReactorId::lemma_value_injective,
}

} // verus!
