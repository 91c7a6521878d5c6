//! Bounded group-wide fail-safe termination observations.

use vstd::prelude::*;

use super::super::termination::ReactorTermination;
use super::identity::{group_reactor_identity, ReactorId};

verus! {

broadcast use group_reactor_identity;

/// Exact per-reactor results of one group termination request.
#[must_use]
#[derive(Debug)]
pub struct ReactorGroupTermination {
    reactors: Vec<ReactorTermination>,
}

impl ReactorGroupTermination {
    /// Per-reactor results in reactor identity order.
    pub closed spec fn reactors_spec(self) -> Seq<ReactorTermination> {
        self.reactors@
    }

    /// Collects per-reactor results given in reactor identity order.
    pub fn new(reactors: Vec<ReactorTermination>) -> (termination: Self)
        ensures
            termination.reactors_spec() == reactors@,
    {
        ReactorGroupTermination { reactors }
    }

    /// Returns the number of reactors observed by this request.
    pub fn len(&self) -> (len: usize)
        ensures
            len == self.reactors_spec().len(),
    {
        self.reactors.len()
    }

    /// Returns whether the group contained no reactors.
    pub fn is_empty(&self) -> (empty: bool)
        ensures
            empty == (self.reactors_spec().len() == 0),
    {
        self.reactors.len() == 0
    }

    /// Returns the result for one valid reactor identity.
    pub fn get(&self, reactor: ReactorId) -> (result: Option<&ReactorTermination>)
        ensures
            reactor.value() < self.reactors_spec().len() ==> (result matches Some(r) && *r
                == self.reactors_spec()[reactor.value() as int]),
            reactor.value() >= self.reactors_spec().len() ==> result is None,
    {
        let len = self.reactors.len();
        match reactor.position() {
            Some(position) => {
                if position < len {
                    Some(&self.reactors[position])
                } else {
                    None
                }
            },
            None => None,
        }
    }

    /// Lists results in stable reactor identity order.
    pub fn iter(&self) -> (results: Vec<(ReactorId, &ReactorTermination)>)
        ensures
            results@.len() == self.reactors_spec().len(),
            forall|i: int|
                0 <= i < results@.len() ==> (#[trigger] results@[i]).0.value() == i && *results@[i].1
                    == self.reactors_spec()[i],
    {
        let mut listed: Vec<(ReactorId, &ReactorTermination)> = Vec::with_capacity(
            self.reactors.len(),
        );
        let mut i: usize = 0;
        while i < self.reactors.len()
            invariant
                i <= self.reactors@.len(),
                listed@.len() == i,
                forall|j: int|
                    0 <= j < i ==> (#[trigger] listed@[j]).0.value() == j && *listed@[j].1
                        == self.reactors@[j],
            decreases self.reactors@.len() - i,
        {
            listed.push((ReactorId::from_position(i), &self.reactors[i]));
            i = i + 1;
        }
        listed
    }
}

} // verus!
