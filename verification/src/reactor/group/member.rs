//! One unstarted reactor paired with the exact ingress routed to its duty.

use vstd::prelude::*;

use super::identity::{group_reactor_identity, ReactorId};

verus! {

broadcast use group_reactor_identity;

/// One unstarted reactor and the ingress authority routed to it.
#[derive(Debug)]
pub struct ReactorGroupMember<R, S> {
    id: ReactorId,
    reactor: R,
    ingress: S,
}

impl<R, S> ReactorGroupMember<R, S> {
    /// The declared static topology identity.
    pub closed spec fn id_spec(self) -> ReactorId {
        self.id
    }

    /// The unstarted reactor.
    pub closed spec fn reactor_spec(self) -> R {
        self.reactor
    }

    /// The ingress authority routed to the reactor.
    pub closed spec fn ingress_spec(self) -> S {
        self.ingress
    }

    /// Pairs a reactor with its ingress under a declared identity, which must
    /// match the member's position in the static topology.
    pub fn from_parts(id: ReactorId, reactor: R, ingress: S) -> (member: Self)
        ensures
            member.id_spec() == id,
            member.reactor_spec() == reactor,
            member.ingress_spec() == ingress,
    {
        ReactorGroupMember { id, reactor, ingress }
    }

    /// Returns the declared static topology identity.
    pub fn id(&self) -> (id: ReactorId)
        ensures
            id == self.id_spec(),
    {
        self.id
    }

    /// Returns shared access to the unstarted reactor.
    pub fn reactor(&self) -> (reactor: &R)
        ensures
            *reactor == self.reactor_spec(),
    {
        &self.reactor
    }

    /// Splits the member into identity, reactor, and ingress.
    pub fn into_parts(self) -> (parts: (ReactorId, R, S))
        ensures
            parts == (self.id_spec(), self.reactor_spec(), self.ingress_spec()),
    {
        (self.id, self.reactor, self.ingress)
    }
}

/// Splits members into their reactors and ingress authorities, keeping
/// topology order.
pub fn split_members<R, S>(members: Vec<ReactorGroupMember<R, S>>) -> (parts: (Vec<R>, Vec<S>))
    ensures
        parts.0@.len() == members@.len(),
        parts.1@.len() == members@.len(),
        forall|i: int| 0 <= i < members@.len() ==> #[trigger] parts.0@[i] == members@[i].reactor_spec(),
        forall|i: int| 0 <= i < members@.len() ==> #[trigger] parts.1@[i] == members@[i].ingress_spec(),
{
    let ghost given = members@;
    let mut remaining = members;
    let mut reactors: Vec<R> = Vec::new();
    let mut ingress: Vec<S> = Vec::new();
    while remaining.len() > 0
        invariant
            reactors@.len() == ingress@.len(),
            reactors@.len() + remaining@.len() == given.len(),
            forall|j: int| 0 <= j < remaining@.len() ==> #[trigger] remaining@[j] == given[reactors@.len() + j],
            forall|j: int| 0 <= j < reactors@.len() ==> #[trigger] reactors@[j] == given[j].reactor_spec(),
            forall|j: int| 0 <= j < ingress@.len() ==> #[trigger] ingress@[j] == given[j].ingress_spec(),
        decreases remaining@.len(),
    {
        let member = remaining.remove(0);
        let (_, reactor, sender) = member.into_parts();
        reactors.push(reactor);
        ingress.push(sender);
    }
    (reactors, ingress)
}

/// Pairs reactors with their ingress authorities in topology order, giving
/// each the identity of its position.
pub fn rejoin_members<R, S>(reactors: Vec<R>, ingress: Vec<S>) -> (members: Vec<ReactorGroupMember<R, S>>)
    requires
        reactors@.len() == ingress@.len(),
    ensures
        members@.len() == reactors@.len(),
        forall|i: int|
            0 <= i < members@.len() ==> (#[trigger] members@[i]).id_spec().value() == i
                && members@[i].reactor_spec() == reactors@[i] && members@[i].ingress_spec()
                == ingress@[i],
{
    let ghost given_reactors = reactors@;
    let ghost given_ingress = ingress@;
    let total = reactors.len();
    let mut reactors = reactors;
    let mut ingress = ingress;
    let mut members: Vec<ReactorGroupMember<R, S>> = Vec::with_capacity(total);
    while reactors.len() > 0
        invariant
            reactors@.len() == ingress@.len(),
            total == given_reactors.len(),
            given_ingress.len() == total,
            members@.len() + reactors@.len() == total,
            forall|j: int|
                0 <= j < reactors@.len() ==> #[trigger] reactors@[j] == given_reactors[members@.len() + j]
                    && ingress@[j] == given_ingress[members@.len() + j],
            forall|j: int|
                0 <= j < members@.len() ==> (#[trigger] members@[j]).id_spec().value() == j
                    && members@[j].reactor_spec() == given_reactors[j]
                    && members@[j].ingress_spec() == given_ingress[j],
        decreases reactors@.len(),
    {
        let reactor = reactors.remove(0);
        let sender = ingress.remove(0);
        let position = members.len();
        members.push(ReactorGroupMember::from_parts(ReactorId::from_position(position), reactor, sender));
    }
    members
}

/// Startup never loses a member: splitting members whose identities match
/// their positions and pairing the parts again gives back the same members.
pub proof fn lemma_split_rejoin_round_trip<R, S>(
    members: Seq<ReactorGroupMember<R, S>>,
    reactors: Seq<R>,
    ingress: Seq<S>,
    rejoined: Seq<ReactorGroupMember<R, S>>,
)
    requires
        forall|i: int| 0 <= i < members.len() ==> (#[trigger] members[i]).id_spec().value() == i,
        reactors.len() == members.len(),
        ingress.len() == members.len(),
        forall|i: int|
            0 <= i < members.len() ==> #[trigger] reactors[i] == members[i].reactor_spec()
                && ingress[i] == members[i].ingress_spec(),
        rejoined.len() == reactors.len(),
        forall|i: int|
            0 <= i < rejoined.len() ==> (#[trigger] rejoined[i]).id_spec().value() == i
                && rejoined[i].reactor_spec() == reactors[i] && rejoined[i].ingress_spec()
                == ingress[i],
    ensures
        rejoined == members,
{
    assert forall|i: int| 0 <= i < members.len() implies #[trigger] rejoined[i] == members[i] by {
        ReactorId::lemma_value_injective(rejoined[i].id_spec(), members[i].id_spec());
        lemma_member_parts_injective(rejoined[i], members[i]);
    }
    assert(rejoined =~= members);
}

/// A member is determined by its identity, reactor, and ingress.
pub proof fn lemma_member_parts_injective<R, S>(a: ReactorGroupMember<R, S>, b: ReactorGroupMember<R, S>)
    ensures
        (a.id_spec() == b.id_spec() && a.reactor_spec() == b.reactor_spec() && a.ingress_spec()
            == b.ingress_spec()) ==> a == b,
{
}

} // verus!
