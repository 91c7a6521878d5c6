//! Collection of member exits, in whatever order threads finish, into the
//! ordered group exit.

use vstd::prelude::*;

use crate::count::NonZeroCount;

use super::exit::{group_outcome, group_outcome_spec, MemberTerminal, ReactorGroupExit};
use super::identity::{group_reactor_identity, ReactorId};

verus! {

broadcast use group_reactor_identity;

/// Member exits collected so far, by reactor position.
pub struct ExitLedger<E> {
    exits: Vec<Option<(E, MemberTerminal)>>,
    collected: usize,
}

impl<E> ExitLedger<E> {
    /// The collected exits by position; `None` marks a member still running.
    pub closed spec fn slots(self) -> Seq<Option<(E, MemberTerminal)>> {
        self.exits@
    }

    /// The number of collected exits.
    pub closed spec fn collected_spec(self) -> nat {
        self.collected as nat
    }

    /// The number of collected exits matches the filled positions.
    pub closed spec fn wf(self) -> bool {
        self.collected == filled(self.exits@)
    }

    /// Whether member `id` already reported.
    pub open spec fn has_reported(self, id: ReactorId) -> bool {
        id.value() < self.slots().len() && self.slots()[id.value() as int] is Some
    }

    /// An empty ledger for a group of `members` reactors.
    pub fn new(members: usize) -> (ledger: Self)
        ensures
            ledger.wf(),
            ledger.slots().len() == members,
            forall|i: int| 0 <= i < members ==> #[trigger] ledger.slots()[i] is None,
            ledger.collected_spec() == 0,
    {
        let mut exits: Vec<Option<(E, MemberTerminal)>> = Vec::with_capacity(members);
        let mut i: usize = 0;
        while i < members
            invariant
                i <= members,
                exits@.len() == i,
                forall|j: int| 0 <= j < i ==> #[trigger] exits@[j] is None,
                filled(exits@) == 0,
            decreases members - i,
        {
            let ghost before = exits@;
            exits.push(None);
            proof {
                assert(exits@.drop_last() =~= before);
            }
            i = i + 1;
        }
        ExitLedger { exits, collected: 0 }
    }

    /// Records the exit of member `id`, which must belong to the group and
    /// must not have reported before.
    pub fn record(&mut self, id: ReactorId, exit: E, terminal: MemberTerminal)
        requires
            old(self).wf(),
            id.value() < old(self).slots().len(),
            !old(self).has_reported(id),
        ensures
            final(self).wf(),
            final(self).slots() == old(self).slots().update(id.value() as int, Some((exit, terminal))),
            final(self).collected_spec() == old(self).collected_spec() + 1,
    {
        let _slots = self.exits.len();
        let position = id.get() as usize;
        proof {
            lemma_filled_update(self.exits@, position as int, Some((exit, terminal)));
            lemma_filled_bound(self.exits@.update(position as int, Some((exit, terminal))));
        }
        self.exits.set(position, Some((exit, terminal)));
        self.collected = self.collected + 1;
    }

    /// Returns whether every member reported.
    pub fn is_complete(&self) -> (complete: bool)
        requires
            self.wf(),
        ensures
            complete == forall|i: int| 0 <= i < self.slots().len() ==> #[trigger] self.slots()[i] is Some,
    {
        proof {
            lemma_filled_full(self.exits@);
        }
        self.collected == self.exits.len()
    }

    /// Turns a complete ledger into the ordered group exit, aggregating the
    /// outcome from the members' terminal classes in identity order.
    pub fn finish(self) -> (exit: ReactorGroupExit<E>)
        requires
            self.wf(),
            forall|i: int| 0 <= i < self.slots().len() ==> #[trigger] self.slots()[i] is Some,
        ensures
            exit.members_spec().len() == self.slots().len(),
            forall|i: int|
                0 <= i < self.slots().len() ==> #[trigger] exit.members_spec()[i]
                    == self.slots()[i]->Some_0.0,
            group_outcome_spec(
                Seq::new(self.slots().len(), |i: int| self.slots()[i]->Some_0.1),
                exit.outcome_spec(),
            ),
    {
        let ghost slots = self.exits@;
        let mut members: Vec<E> = Vec::with_capacity(self.exits.len());
        let mut terminals: Vec<MemberTerminal> = Vec::with_capacity(self.exits.len());
        let mut exits = self.exits;
        let total = exits.len();
        let mut i: usize = 0;
        while i < total
            invariant
                i <= total,
                total == slots.len(),
                exits@.len() == total,
                forall|j: int| i <= j < total ==> #[trigger] exits@[j] == slots[j],
                forall|j: int| 0 <= j < slots.len() ==> #[trigger] slots[j] is Some,
                members@.len() == i,
                terminals@.len() == i,
                forall|j: int| 0 <= j < i ==> #[trigger] members@[j] == slots[j]->Some_0.0,
                forall|j: int| 0 <= j < i ==> #[trigger] terminals@[j] == slots[j]->Some_0.1,
            decreases total - i,
        {
            let mut taken: Option<(E, MemberTerminal)> = None;
            core::mem::swap(&mut exits[i], &mut taken);
            match taken {
                Some((exit, terminal)) => {
                    members.push(exit);
                    terminals.push(terminal);
                },
                None => {
                    proof {
                        assert(false);
                    }
                },
            }
            i = i + 1;
        }
        proof {
            assert(terminals@ =~= Seq::new(slots.len(), |i: int| slots[i]->Some_0.1));
        }
        ReactorGroupExit::from_members(members, &terminals)
    }
}

/// The number of filled positions.
pub open spec fn filled<E>(slots: Seq<Option<(E, MemberTerminal)>>) -> nat
    decreases slots.len(),
{
    if slots.len() == 0 {
        0
    } else {
        filled(slots.drop_last()) + if slots.last() is Some {
            1nat
        } else {
            0nat
        }
    }
}

proof fn lemma_filled_update<E>(
    slots: Seq<Option<(E, MemberTerminal)>>,
    i: int,
    value: Option<(E, MemberTerminal)>,
)
    requires
        0 <= i < slots.len(),
        slots[i] is None,
        value is Some,
    ensures
        filled(slots.update(i, value)) == filled(slots) + 1,
    decreases slots.len(),
{
    if i < slots.len() - 1 {
        assert(slots.update(i, value).drop_last() =~= slots.drop_last().update(i, value));
        lemma_filled_update(slots.drop_last(), i, value);
    } else {
        assert(slots.update(i, value).drop_last() =~= slots.drop_last());
    }
}

proof fn lemma_filled_bound<E>(slots: Seq<Option<(E, MemberTerminal)>>)
    ensures
        filled(slots) <= slots.len(),
    decreases slots.len(),
{
    if slots.len() > 0 {
        lemma_filled_bound(slots.drop_last());
    }
}

proof fn lemma_filled_full<E>(slots: Seq<Option<(E, MemberTerminal)>>)
    ensures
        filled(slots) <= slots.len(),
        (filled(slots) == slots.len()) == forall|i: int| 0 <= i < slots.len() ==> #[trigger] slots[i] is Some,
    decreases slots.len(),
{
    if slots.len() > 0 {
        let shorter = slots.drop_last();
        lemma_filled_full(shorter);
        if filled(slots) == slots.len() {
            assert forall|i: int| 0 <= i < slots.len() implies #[trigger] slots[i] is Some by {
                if i < slots.len() - 1 {
                    assert(shorter[i] == slots[i]);
                }
            }
        } else {
            if slots.last() is Some {
                let j = choose|j: int| 0 <= j < shorter.len() && !(#[trigger] shorter[j] is Some);
                assert(slots[j] == shorter[j]);
            }
        }
    }
}

/// The group exit does not depend on the order in which members reported:
/// two complete ledgers holding the same exit at every position give the
/// same members and the same outcome.
pub proof fn lemma_arrival_order_irrelevant<E>(
    first: ExitLedger<E>,
    second: ExitLedger<E>,
    first_exit: ReactorGroupExit<E>,
    second_exit: ReactorGroupExit<E>,
)
    requires
        first.slots() == second.slots(),
        forall|i: int| 0 <= i < first.slots().len() ==> #[trigger] first.slots()[i] is Some,
        first_exit.members_spec().len() == first.slots().len(),
        second_exit.members_spec().len() == second.slots().len(),
        forall|i: int|
            0 <= i < first.slots().len() ==> #[trigger] first_exit.members_spec()[i]
                == first.slots()[i]->Some_0.0,
        forall|i: int|
            0 <= i < second.slots().len() ==> #[trigger] second_exit.members_spec()[i]
                == second.slots()[i]->Some_0.0,
        group_outcome_spec(
            Seq::new(first.slots().len(), |i: int| first.slots()[i]->Some_0.1),
            first_exit.outcome_spec(),
        ),
        group_outcome_spec(
            Seq::new(second.slots().len(), |i: int| second.slots()[i]->Some_0.1),
            second_exit.outcome_spec(),
        ),
    ensures
        first_exit.members_spec() == second_exit.members_spec(),
        first_exit.outcome_spec() == second_exit.outcome_spec(),
{
    assert(first_exit.members_spec() =~= second_exit.members_spec());
    let terminals = Seq::new(first.slots().len(), |i: int| first.slots()[i]->Some_0.1);
    assert(terminals =~= Seq::new(second.slots().len(), |i: int| second.slots()[i]->Some_0.1));
    super::exit::lemma_outcome_deterministic(
        terminals,
        first_exit.outcome_spec(),
        second_exit.outcome_spec(),
    );
}

/// What supervision does after one member exit was recorded.
#[derive(Clone, Copy, Debug, PartialEq, Eq, Structural)]
pub enum SupervisorCommand {
    /// Some member is still running: wait for the next completion.
    AwaitCompletion,
    /// Every member has exited: close group admission, then finish the
    /// group exit.
    CloseAdmission,
}

/// Supervision of one static group: the member exits collected so far and
/// whether supervision still leaves group admission open.
pub struct GroupSupervisor<E> {
    ledger: ExitLedger<E>,
    admission_open: bool,
}

impl<E> GroupSupervisor<E> {
    /// The member exits collected so far.
    pub closed spec fn ledger_spec(self) -> ExitLedger<E> {
        self.ledger
    }

    /// Whether group admission is still open.
    pub closed spec fn admission_open_spec(self) -> bool {
        self.admission_open
    }

    /// Every member of the group has reported its exit.
    pub open spec fn all_reported(self) -> bool {
        forall|i: int|
            0 <= i < self.ledger_spec().slots().len() ==> #[trigger] self.ledger_spec().slots()[i] is Some
    }

    /// The ledger is consistent, the group is not empty, and admission is
    /// open exactly while some member has not reported.
    pub closed spec fn wf(self) -> bool {
        &&& self.ledger.wf()
        &&& self.ledger.slots().len() > 0
        &&& self.admission_open == !self.all_reported()
    }

    /// Group admission is open exactly while some member is still running;
    /// once the last exit is recorded it is closed.
    pub proof fn lemma_admission_closes_with_last_exit(self)
        requires
            self.wf(),
        ensures
            self.admission_open_spec() <==> !self.all_reported(),
            self.ledger_spec().slots().len() > 0,
    {
    }

    /// Starts supervising `members` running reactors with admission open.
    pub fn new(members: NonZeroCount) -> (supervisor: Self)
        ensures
            supervisor.wf(),
            supervisor.admission_open_spec(),
            supervisor.ledger_spec().slots().len() == members.value(),
            forall|i: int|
                0 <= i < members.value() ==> #[trigger] supervisor.ledger_spec().slots()[i] is None,
            supervisor.ledger_spec().collected_spec() == 0,
    {
        let ledger = ExitLedger::new(members.get());
        let supervisor = GroupSupervisor { ledger, admission_open: true };
        assert(!supervisor.all_reported()) by {
            assert(!(supervisor.ledger.slots()[0] is Some));
        }
        supervisor
    }

    /// Returns whether group admission is still open.
    pub fn is_admission_open(&self) -> (open: bool)
        ensures
            open == self.admission_open_spec(),
    {
        self.admission_open
    }

    /// Records the exit of member `id`, which must belong to the group and
    /// must not have reported before, and says what to do next: close
    /// admission exactly when this was the last running member.
    pub fn record(&mut self, id: ReactorId, exit: E, terminal: MemberTerminal) -> (command:
        SupervisorCommand)
        requires
            old(self).wf(),
            id.value() < old(self).ledger_spec().slots().len(),
            !old(self).ledger_spec().has_reported(id),
        ensures
            final(self).wf(),
            final(self).ledger_spec().slots() == old(self).ledger_spec().slots().update(
                id.value() as int,
                Some((exit, terminal)),
            ),
            final(self).ledger_spec().collected_spec() == old(self).ledger_spec().collected_spec()
                + 1,
            command == (if final(self).all_reported() {
                SupervisorCommand::CloseAdmission
            } else {
                SupervisorCommand::AwaitCompletion
            }),
            final(self).admission_open_spec() == (command == SupervisorCommand::AwaitCompletion),
    {
        self.ledger.record(id, exit, terminal);
        if self.ledger.is_complete() {
            self.admission_open = false;
            SupervisorCommand::CloseAdmission
        } else {
            SupervisorCommand::AwaitCompletion
        }
    }

    /// Turns supervision whose members have all reported, and which has
    /// therefore closed admission, into the ordered group exit.
    pub fn finish(self) -> (exit: ReactorGroupExit<E>)
        requires
            self.wf(),
            self.all_reported(),
        ensures
            !self.admission_open_spec(),
            exit.members_spec().len() == self.ledger_spec().slots().len(),
            forall|i: int|
                0 <= i < self.ledger_spec().slots().len() ==> #[trigger] exit.members_spec()[i]
                    == self.ledger_spec().slots()[i]->Some_0.0,
            group_outcome_spec(
                Seq::new(
                    self.ledger_spec().slots().len(),
                    |i: int| self.ledger_spec().slots()[i]->Some_0.1,
                ),
                exit.outcome_spec(),
            ),
    {
        self.ledger.finish()
    }
}

} // verus!
