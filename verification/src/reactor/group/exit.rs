//! Ordered member exits and the aggregate reactor-group terminal state.

use vstd::prelude::*;

use super::identity::{group_reactor_identity, ReactorId};

verus! {

broadcast use group_reactor_identity;

/// Terminal class of one reactor-group member.
#[derive(Clone, Copy, Debug, PartialEq, Eq, Structural)]
pub enum MemberTerminal {
    /// The duty stopped without framework termination or failure.
    Stopped,
    /// The reactor observed explicit framework termination.
    Terminated,
    /// The reactor returned a typed host or waiting failure.
    Failed,
    /// The reactor thread unwound through a panic.
    Panicked,
}

/// Aggregate terminal reason for one static reactor group.
///
/// Panics take precedence over typed failures, which take precedence over
/// explicit termination and graceful stop. The lowest reactor identity wins
/// within one fatal class, independent of thread completion order.
#[derive(Clone, Copy, Debug, PartialEq, Eq, Structural)]
pub enum ReactorGroupOutcome {
    /// Every reactor duty stopped without framework termination or failure.
    Stopped,
    /// At least one reactor observed explicit framework termination.
    Terminated,
    /// A reactor returned a typed host or waiting failure.
    Failed(ReactorId),
    /// A reactor thread unwound through a panic.
    Panicked(ReactorId),
}

/// `index` is the lowest position holding `terminal`.
pub open spec fn is_first(terminals: Seq<MemberTerminal>, terminal: MemberTerminal, index: int) -> bool {
    &&& 0 <= index < terminals.len()
    &&& terminals[index] == terminal
    &&& forall|j: int| 0 <= j < index ==> #[trigger] terminals[j] != terminal
}

/// Some position holds `terminal`.
pub open spec fn occurs(terminals: Seq<MemberTerminal>, terminal: MemberTerminal) -> bool {
    exists|i: int| 0 <= i < terminals.len() && #[trigger] terminals[i] == terminal
}

/// The aggregate outcome of members whose terminal classes are
/// `terminals`, in reactor identity order.
pub open spec fn group_outcome_spec(terminals: Seq<MemberTerminal>, outcome: ReactorGroupOutcome) -> bool {
    if occurs(terminals, MemberTerminal::Panicked) {
        outcome matches ReactorGroupOutcome::Panicked(id) && is_first(
            terminals,
            MemberTerminal::Panicked,
            id.value() as int,
        )
    } else if occurs(terminals, MemberTerminal::Failed) {
        outcome matches ReactorGroupOutcome::Failed(id) && is_first(
            terminals,
            MemberTerminal::Failed,
            id.value() as int,
        )
    } else if occurs(terminals, MemberTerminal::Terminated) {
        outcome == ReactorGroupOutcome::Terminated
    } else {
        outcome == ReactorGroupOutcome::Stopped
    }
}

fn first_position(terminals: &Vec<MemberTerminal>, terminal: MemberTerminal) -> (found: Option<usize>)
    ensures
        match found {
            Some(index) => is_first(terminals@, terminal, index as int),
            None => !occurs(terminals@, terminal),
        },
{
    let mut i: usize = 0;
    while i < terminals.len()
        invariant
            i <= terminals@.len(),
            forall|j: int| 0 <= j < i ==> #[trigger] terminals@[j] != terminal,
        decreases terminals@.len() - i,
    {
        if terminals[i] == terminal {
            return Some(i);
        }
        i = i + 1;
    }
    None
}

/// Aggregates member terminal classes, given in reactor identity order.
pub fn group_outcome(terminals: &Vec<MemberTerminal>) -> (outcome: ReactorGroupOutcome)
    ensures
        group_outcome_spec(terminals@, outcome),
{
    if let Some(index) = first_position(terminals, MemberTerminal::Panicked) {
        return ReactorGroupOutcome::Panicked(ReactorId::from_position(index));
    }
    if let Some(index) = first_position(terminals, MemberTerminal::Failed) {
        return ReactorGroupOutcome::Failed(ReactorId::from_position(index));
    }
    if first_position(terminals, MemberTerminal::Terminated).is_some() {
        ReactorGroupOutcome::Terminated
    } else {
        ReactorGroupOutcome::Stopped
    }
}

/// Whether a member's exit must fail the whole group closed.
pub fn is_fatal(terminal: MemberTerminal) -> (fatal: bool)
    ensures
        fatal == (terminal == MemberTerminal::Failed || terminal == MemberTerminal::Panicked),
{
    matches!(terminal, MemberTerminal::Failed | MemberTerminal::Panicked)
}

/// Owned ordered result of one complete group lifecycle.
pub struct ReactorGroupExit<E> {
    outcome: ReactorGroupOutcome,
    members: Vec<E>,
}

impl<E> ReactorGroupExit<E> {
    /// The aggregate group outcome.
    pub closed spec fn outcome_spec(self) -> ReactorGroupOutcome {
        self.outcome
    }

    /// The member exits in reactor identity order.
    pub closed spec fn members_spec(self) -> Seq<E> {
        self.members@
    }

    /// Collects member exits, in reactor identity order, with their terminal
    /// classes, and aggregates the group outcome.
    pub fn from_members(members: Vec<E>, terminals: &Vec<MemberTerminal>) -> (exit: Self)
        requires
            members@.len() == terminals@.len(),
        ensures
            exit.members_spec() == members@,
            group_outcome_spec(terminals@, exit.outcome_spec()),
    {
        let outcome = group_outcome(terminals);
        ReactorGroupExit { outcome, members }
    }

    /// Returns the aggregate group outcome.
    pub fn outcome(&self) -> (outcome: ReactorGroupOutcome)
        ensures
            outcome == self.outcome_spec(),
    {
        self.outcome
    }

    /// Returns the immutable member count.
    pub fn len(&self) -> (len: usize)
        ensures
            len == self.members_spec().len(),
    {
        self.members.len()
    }

    /// Returns whether this exit contains no members.
    pub fn is_empty(&self) -> (empty: bool)
        ensures
            empty == (self.members_spec().len() == 0),
    {
        self.members.len() == 0
    }

    /// Returns one member exit by exact reactor identity.
    pub fn member(&self, reactor: ReactorId) -> (member: Option<&E>)
        ensures
            reactor.value() < self.members_spec().len() ==> (member matches Some(m) && *m
                == self.members_spec()[reactor.value() as int]),
            reactor.value() >= self.members_spec().len() ==> member is None,
    {
        let len = self.members.len();
        match reactor.position() {
            Some(position) => {
                if position < len {
                    Some(&self.members[position])
                } else {
                    None
                }
            },
            None => None,
        }
    }

    /// Lists member exits in stable reactor identity order.
    pub fn members(&self) -> (members: Vec<(ReactorId, &E)>)
        ensures
            members@.len() == self.members_spec().len(),
            forall|i: int|
                0 <= i < members@.len() ==> (#[trigger] members@[i]).0.value() == i && *members@[i].1
                    == self.members_spec()[i],
    {
        let mut listed: Vec<(ReactorId, &E)> = Vec::with_capacity(self.members.len());
        let mut i: usize = 0;
        while i < self.members.len()
            invariant
                i <= self.members@.len(),
                listed@.len() == i,
                forall|j: int|
                    0 <= j < i ==> (#[trigger] listed@[j]).0.value() == j && *listed@[j].1
                        == self.members@[j],
            decreases self.members@.len() - i,
        {
            listed.push((ReactorId::from_position(i), &self.members[i]));
            i = i + 1;
        }
        listed
    }

    /// Consumes the group exit and returns ordered terminal member ownership.
    pub fn into_members(self) -> (members: Vec<E>)
        ensures
            members@ == self.members_spec(),
    {
        self.members
    }
}

/// Precedence: a panic anywhere decides the group outcome, whatever the
/// other members did, and a typed failure decides it when no member panicked.
pub proof fn lemma_outcome_precedence(terminals: Seq<MemberTerminal>, outcome: ReactorGroupOutcome)
    requires
        group_outcome_spec(terminals, outcome),
    ensures
        occurs(terminals, MemberTerminal::Panicked) <==> outcome is Panicked,
        !occurs(terminals, MemberTerminal::Panicked) && occurs(terminals, MemberTerminal::Failed)
            <==> outcome is Failed,
        outcome == ReactorGroupOutcome::Stopped ==> forall|i: int|
            0 <= i < terminals.len() ==> #[trigger] terminals[i] == MemberTerminal::Stopped,
{
    if outcome == ReactorGroupOutcome::Stopped {
        assert forall|i: int| 0 <= i < terminals.len() implies #[trigger] terminals[i]
            == MemberTerminal::Stopped by {
            match terminals[i] {
                MemberTerminal::Stopped => {},
                other => {
                    assert(occurs(terminals, other));
                },
            }
        }
    }
}

/// The aggregate outcome is a function of the members' classes in identity
/// order alone, so it does not depend on the order in which threads
/// completed.
pub proof fn lemma_outcome_deterministic(
    terminals: Seq<MemberTerminal>,
    first: ReactorGroupOutcome,
    second: ReactorGroupOutcome,
)
    requires
        group_outcome_spec(terminals, first),
        group_outcome_spec(terminals, second),
    ensures
        first == second,
{
    if let (ReactorGroupOutcome::Panicked(a), ReactorGroupOutcome::Panicked(b)) = (first, second) {
        if a.value() < b.value() {
            assert(terminals[a.value() as int] == MemberTerminal::Panicked);
        } else if b.value() < a.value() {
            assert(terminals[b.value() as int] == MemberTerminal::Panicked);
        }
    }
    if let (ReactorGroupOutcome::Failed(a), ReactorGroupOutcome::Failed(b)) = (first, second) {
        if a.value() < b.value() {
            assert(terminals[a.value() as int] == MemberTerminal::Failed);
        } else if b.value() < a.value() {
            assert(terminals[b.value() as int] == MemberTerminal::Failed);
        }
    }
}

} // verus!
