//! Group admission routing and ownership-preserving ingress failures.

use vstd::prelude::*;

use crate::count::NonZeroCount;

use super::identity::ReactorId;

verus! {

/// Mailbox lane selected for routed work.
#[derive(Clone, Copy, Debug, PartialEq, Eq, Hash, Structural)]
pub enum Lane {
    /// Ordinary work.
    Work,
    /// Control work.
    Control,
}

/// Why a reactor group rejected routed ingress; `F` is the mailbox's own
/// rejection reason.
#[derive(Debug, PartialEq, Eq)]
pub enum ReactorGroupSendFailure<F> {
    /// Group admission was closed before publication.
    Closed,
    /// The requested reactor is outside the static topology.
    UnknownReactor {
        /// Rejected reactor identity.
        reactor: ReactorId,
        /// Static number of reactors in the group.
        reactors: NonZeroCount,
    },
    /// The selected reactor mailbox rejected publication.
    Mailbox(F),
}

/// Rejected routed value with exact ownership preserved.
#[derive(Debug)]
pub struct ReactorGroupSendError<T, F> {
    item: T,
    lane: Lane,
    failure: ReactorGroupSendFailure<F>,
}

impl<T, F> ReactorGroupSendError<T, F> {
    /// The rejected value.
    pub closed spec fn item_spec(self) -> T {
        self.item
    }

    /// The rejected lane.
    pub closed spec fn lane_spec(self) -> Lane {
        self.lane
    }

    /// The rejection reason.
    pub closed spec fn failure_spec(self) -> ReactorGroupSendFailure<F> {
        self.failure
    }

    /// Creates a rejection carrying the value back.
    pub fn new(item: T, lane: Lane, failure: ReactorGroupSendFailure<F>) -> (error: Self)
        ensures
            error.item_spec() == item,
            error.lane_spec() == lane,
            error.failure_spec() == failure,
    {
        ReactorGroupSendError { item, lane, failure }
    }

    /// Returns the rejected lane.
    pub fn lane(&self) -> (lane: Lane)
        ensures
            lane == self.lane_spec(),
    {
        self.lane
    }

    /// Returns the rejection reason.
    pub fn failure(&self) -> (failure: &ReactorGroupSendFailure<F>)
        ensures
            *failure == self.failure_spec(),
    {
        &self.failure
    }

    /// Consumes the error and returns the rejected value.
    pub fn into_item(self) -> (item: T)
        ensures
            item == self.item_spec(),
    {
        self.item
    }

    /// Consumes the error and returns every component.
    pub fn into_parts(self) -> (parts: (T, Lane, ReactorGroupSendFailure<F>))
        ensures
            parts == (self.item_spec(), self.lane_spec(), self.failure_spec()),
    {
        (self.item, self.lane, self.failure)
    }
}

/// Routes `item` to the mailbox position of `reactor` in a group of
/// `reactors`, or hands it back: closed admission is checked first, then the
/// static topology.
pub fn route<T, F>(open: bool, reactors: NonZeroCount, reactor: ReactorId, lane: Lane, item: T) -> (routed: Result<
    (usize, T),
    ReactorGroupSendError<T, F>,
>)
    ensures
        route_spec(open, reactors, reactor, lane, item, routed),
{
    if !open {
        return Err(ReactorGroupSendError::new(item, lane, ReactorGroupSendFailure::Closed));
    }
    match reactor.position() {
        Some(position) => {
            if position < reactors.get() {
                Ok((position, item))
            } else {
                Err(
                    ReactorGroupSendError::new(
                        item,
                        lane,
                        ReactorGroupSendFailure::UnknownReactor { reactor, reactors },
                    ),
                )
            }
        },
        None => Err(
            ReactorGroupSendError::new(
                item,
                lane,
                ReactorGroupSendFailure::UnknownReactor { reactor, reactors },
            ),
        ),
    }
}

/// Routing never loses the value: it is delivered to a position inside the
/// topology or handed back, and a closed group hands every value back.
pub proof fn lemma_routing_keeps_item<T, F>(
    open: bool,
    reactors: NonZeroCount,
    reactor: ReactorId,
    lane: Lane,
    item: T,
    routed: Result<(usize, T), ReactorGroupSendError<T, F>>,
)
    requires
        route_spec(open, reactors, reactor, lane, item, routed),
    ensures
        (routed matches Ok((position, delivered)) && delivered == item && position
            < reactors.value()) || (routed matches Err(e) && e.item_spec() == item),
        !open ==> (routed matches Err(e) && e.failure_spec() == ReactorGroupSendFailure::<F>::Closed),
{
}

/// The routing contract as a predicate over its result.
pub open spec fn route_spec<T, F>(
    open: bool,
    reactors: NonZeroCount,
    reactor: ReactorId,
    lane: Lane,
    item: T,
    routed: Result<(usize, T), ReactorGroupSendError<T, F>>,
) -> bool {
    &&& !open ==> (routed matches Err(e) && e.item_spec() == item && e.lane_spec() == lane
        && e.failure_spec() == ReactorGroupSendFailure::<F>::Closed)
    &&& open && reactor.value() >= reactors.value() ==> (routed matches Err(e) && e.item_spec()
        == item && e.lane_spec() == lane && e.failure_spec()
        == ReactorGroupSendFailure::<F>::UnknownReactor { reactor, reactors })
    &&& open && reactor.value() < reactors.value() ==> routed == Ok::<
        (usize, T),
        ReactorGroupSendError<T, F>,
    >((reactor.value() as usize, item))
}

} // verus!
