//! Owned terminal state returned by one reactor run loop.

use vstd::prelude::*;

use super::failure::ReactorOutcome;
use super::group::exit::{group_outcome_spec, MemberTerminal, ReactorGroupOutcome};

verus! {

/// The terminal class of a reactor that returned `outcome`.
pub open spec fn terminal_of<HostError, WaitError>(outcome: ReactorOutcome<HostError, WaitError>) -> MemberTerminal {
    match outcome {
        ReactorOutcome::Stopped => MemberTerminal::Stopped,
        ReactorOutcome::Terminated => MemberTerminal::Terminated,
        ReactorOutcome::Failed(_) => MemberTerminal::Failed,
    }
}

/// Owned terminal state returned by one reactor run loop: the host that
/// drove the duty, the waiting backend, and the terminal reason.
#[derive(Debug)]
pub struct ReactorExit<H, W, HostError, WaitError> {
    host: H,
    waiter: W,
    outcome: ReactorOutcome<HostError, WaitError>,
}

impl<H, W, HostError, WaitError> ReactorExit<H, W, HostError, WaitError> {
    /// The terminal host.
    pub closed spec fn host_spec(self) -> H {
        self.host
    }

    /// The terminal waiting backend.
    pub closed spec fn waiter_spec(self) -> W {
        self.waiter
    }

    /// The terminal reason.
    pub closed spec fn outcome_spec(self) -> ReactorOutcome<HostError, WaitError> {
        self.outcome
    }

    /// Collects the owned parts of a finished run loop.
    pub fn new(host: H, waiter: W, outcome: ReactorOutcome<HostError, WaitError>) -> (exit: Self)
        ensures
            exit.host_spec() == host,
            exit.waiter_spec() == waiter,
            exit.outcome_spec() == outcome,
    {
        ReactorExit { host, waiter, outcome }
    }

    /// Returns the terminal reason.
    pub fn outcome(&self) -> (outcome: &ReactorOutcome<HostError, WaitError>)
        ensures
            *outcome == self.outcome_spec(),
    {
        &self.outcome
    }

    /// Returns shared access to the terminal host.
    pub fn host(&self) -> (host: &H)
        ensures
            *host == self.host_spec(),
    {
        &self.host
    }

    /// Returns shared access to the terminal waiting backend.
    pub fn waiter(&self) -> (waiter: &W)
        ensures
            *waiter == self.waiter_spec(),
    {
        &self.waiter
    }

    /// Returns the terminal class that group supervision aggregates.
    pub fn terminal(&self) -> (terminal: MemberTerminal)
        ensures
            terminal == terminal_of(self.outcome_spec()),
    {
        match &self.outcome {
            ReactorOutcome::Stopped => MemberTerminal::Stopped,
            ReactorOutcome::Terminated => MemberTerminal::Terminated,
            ReactorOutcome::Failed(_) => MemberTerminal::Failed,
        }
    }

    /// Consumes the exit and returns every owned component.
    pub fn into_parts(self) -> (parts: (H, W, ReactorOutcome<HostError, WaitError>))
        ensures
            parts == (self.host_spec(), self.waiter_spec(), self.outcome_spec()),
    {
        (self.host, self.waiter, self.outcome)
    }

    /// Consumes the exit and returns the terminal host.
    pub fn into_host(self) -> (host: H)
        ensures
            host == self.host_spec(),
    {
        self.host
    }
}

/// Terminal state of one reactor-group member thread.
#[derive(Debug)]
pub enum ReactorGroupMemberExit<H, W, HostError, WaitError, P> {
    /// The reactor returned an owned terminal exit.
    Exited(ReactorExit<H, W, HostError, WaitError>),
    /// The reactor panicked and lost its unwound owner state; the panic
    /// payload is kept.
    Panicked(P),
}

impl<H, W, HostError, WaitError, P> ReactorGroupMemberExit<H, W, HostError, WaitError, P> {
    /// The terminal class of this member.
    pub open spec fn terminal_spec(self) -> MemberTerminal {
        match self {
            ReactorGroupMemberExit::Exited(exit) => terminal_of(exit.outcome_spec()),
            ReactorGroupMemberExit::Panicked(_) => MemberTerminal::Panicked,
        }
    }

    /// Returns the terminal class that group supervision aggregates.
    pub fn terminal(&self) -> (terminal: MemberTerminal)
        ensures
            terminal == self.terminal_spec(),
    {
        match self {
            ReactorGroupMemberExit::Exited(exit) => exit.terminal(),
            ReactorGroupMemberExit::Panicked(_) => MemberTerminal::Panicked,
        }
    }

    /// Returns the owned reactor exit, or the preserved panic payload.
    pub fn into_result(self) -> (result: Result<ReactorExit<H, W, HostError, WaitError>, P>)
        ensures
            match self {
                ReactorGroupMemberExit::Exited(exit) => result == Ok::<
                    ReactorExit<H, W, HostError, WaitError>,
                    P,
                >(exit),
                ReactorGroupMemberExit::Panicked(payload) => result == Err::<
                    ReactorExit<H, W, HostError, WaitError>,
                    P,
                >(payload),
            },
    {
        match self {
            ReactorGroupMemberExit::Exited(exit) => Ok(exit),
            ReactorGroupMemberExit::Panicked(payload) => Err(payload),
        }
    }
}

/// The terminal class of a reactor exit keeps its outcome: a stopped exit
/// is a stop, a terminated exit a termination, a failed exit a failure, and
/// no exit that returned is classed as a panic.
pub proof fn lemma_terminal_keeps_outcome<HostError, WaitError>(
    outcome: ReactorOutcome<HostError, WaitError>,
)
    ensures
        terminal_of(outcome) == MemberTerminal::Stopped <==> outcome is Stopped,
        terminal_of(outcome) == MemberTerminal::Terminated <==> outcome is Terminated,
        terminal_of(outcome) == MemberTerminal::Failed <==> outcome is Failed,
        terminal_of(outcome) != MemberTerminal::Panicked,
{
}

/// Explicit framework termination is never lost in aggregation: when every
/// member returned, none failed, and one was terminated, the group outcome
/// is `Terminated`; when every member stopped, it is `Stopped`.
pub proof fn lemma_group_keeps_termination<HostError, WaitError>(
    outcomes: Seq<ReactorOutcome<HostError, WaitError>>,
    group: ReactorGroupOutcome,
)
    requires
        group_outcome_spec(outcomes.map_values(|o: ReactorOutcome<HostError, WaitError>| terminal_of(o)), group),
        forall|i: int| 0 <= i < outcomes.len() ==> !(#[trigger] outcomes[i] is Failed),
    ensures
        (exists|i: int| 0 <= i < outcomes.len() && #[trigger] outcomes[i] is Terminated) ==> group
            == ReactorGroupOutcome::Terminated,
        (forall|i: int| 0 <= i < outcomes.len() ==> #[trigger] outcomes[i] is Stopped) ==> group
            == ReactorGroupOutcome::Stopped,
{
    let terminals = outcomes.map_values(|o: ReactorOutcome<HostError, WaitError>| terminal_of(o));
    assert forall|i: int| 0 <= i < terminals.len() implies #[trigger] terminals[i]
        != MemberTerminal::Panicked && terminals[i] != MemberTerminal::Failed by {
        assert(terminals[i] == terminal_of(outcomes[i]));
        assert(!(outcomes[i] is Failed));
    }
    if exists|i: int| 0 <= i < outcomes.len() && #[trigger] outcomes[i] is Terminated {
        let i = choose|i: int| 0 <= i < outcomes.len() && #[trigger] outcomes[i] is Terminated;
        assert(terminals[i] == MemberTerminal::Terminated);
    }
    if forall|i: int| 0 <= i < outcomes.len() ==> #[trigger] outcomes[i] is Stopped {
        assert forall|i: int| 0 <= i < terminals.len() implies #[trigger] terminals[i]
            != MemberTerminal::Terminated by {
            assert(terminals[i] == terminal_of(outcomes[i]));
            assert(outcomes[i] is Stopped);
        }
    }
}

} // verus!
