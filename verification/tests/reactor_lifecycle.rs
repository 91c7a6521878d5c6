use calandria::reactor::group::{
    decide, group_outcome, is_fatal, rejoin_members, route, split_members, validate, ExitLedger,
};
use calandria::reactor::runner::next_command;
use calandria::{
    ControlPhase, HostAction, Lane, MemberTerminal, NonZeroCount, ReactorFailure,
    ReactorGroupExit, ReactorGroupLimits, ReactorGroupOutcome, ReactorGroupSendFailure,
    ReactorGroupSpawnError, ReactorGroupSpawnFailure, ReactorGroupTermination, ReactorId,
    ReactorOutcome, ReactorTermination, ReactorTerminationStatus, RunCommand, RunEvent, Span,
    StartDecision, GroupSupervisor, ReactorExit, ReactorGroupMemberExit, SupervisorCommand,
};

fn count(value: usize) -> NonZeroCount {
    NonZeroCount::new(value).expect("test counts are nonzero")
}

#[test]
fn termination_request_and_exit_linearize() {
    let first = ControlPhase::Running.publish_termination();
    assert_eq!(first.status, ReactorTerminationStatus::Requested);
    assert!(first.wake);
    assert!(first.phase.termination_requested());
    let second = first.phase.publish_termination();
    assert_eq!(second.status, ReactorTerminationStatus::AlreadyRequested);
    assert!(!second.wake);
    let exit = second.phase.finish();
    assert!(exit.termination_requested);
    assert_eq!(exit.phase, ControlPhase::Exited);
    let late = exit.phase.publish_termination();
    assert_eq!(late.status, ReactorTerminationStatus::Exited);
    assert!(!late.wake);
    assert!(!ControlPhase::Running.finish().termination_requested);
}

#[test]
fn termination_results_keep_wake_failures() {
    let failed = ReactorTermination::new(
        ReactorTerminationStatus::Requested,
        Some(std::io::Error::other("modeled wake failure")),
    );
    assert_eq!(failed.status(), ReactorTerminationStatus::Requested);
    assert!(failed.wake_error().is_some());
    assert!(failed.into_wake_error().is_some());
    let quiet = ReactorTermination::new(ReactorTerminationStatus::Exited, None);
    assert!(quiet.wake_error().is_none());
    let group = ReactorGroupTermination::new(vec![quiet]);
    assert_eq!(group.len(), 1);
    assert!(!group.is_empty());
    assert_eq!(group.get(ReactorId::new(0)).map(|t| t.status()), Some(ReactorTerminationStatus::Exited));
    assert!(group.get(ReactorId::new(1)).is_none());
    assert_eq!(group.iter()[0].0, ReactorId::new(0));
}

#[test]
fn run_loop_commands() {
    type Event = RunEvent<&'static str, &'static str>;
    type Command = RunCommand<&'static str, &'static str>;
    assert_eq!(next_command(Event::Checked { termination_requested: true }), Command::Terminate);
    assert_eq!(next_command(Event::Checked { termination_requested: false }), Command::Step);
    assert_eq!(next_command(Event::Stepped(Ok(HostAction::Continue))), Command::Check);
    assert_eq!(next_command(Event::Stepped(Ok(HostAction::Stop))), Command::Finish);
    let maximum = Span::from_nanos(5);
    assert_eq!(
        next_command(Event::Stepped(Ok(HostAction::Wait(maximum)))),
        Command::CheckBeforeWait(maximum)
    );
    assert_eq!(
        next_command(Event::WaitChecked { termination_requested: false, maximum }),
        Command::Wait(maximum)
    );
    assert_eq!(
        next_command(Event::WaitChecked { termination_requested: true, maximum }),
        Command::Check
    );
    assert_eq!(next_command(Event::Finished { termination_requested: true }), Command::Terminate);
    assert_eq!(
        next_command(Event::Finished { termination_requested: false }),
        Command::Exit(ReactorOutcome::Stopped)
    );
    assert_eq!(
        next_command(Event::Stepped(Err("clock"))),
        Command::Exit(ReactorOutcome::Failed(ReactorFailure::Host("clock")))
    );
    assert_eq!(
        next_command(Event::Waited(Err("poll"))),
        Command::Exit(ReactorOutcome::Failed(ReactorFailure::Wait("poll")))
    );
    assert_eq!(next_command(Event::Waited(Ok(()))), Command::Check);
}

#[test]
fn group_outcome_follows_precedence_and_lowest_identity() {
    let (stopped, terminated, failed, panicked) = (
        MemberTerminal::Stopped,
        MemberTerminal::Terminated,
        MemberTerminal::Failed,
        MemberTerminal::Panicked,
    );
    assert_eq!(group_outcome(&vec![stopped, stopped]), ReactorGroupOutcome::Stopped);
    assert_eq!(group_outcome(&vec![stopped, terminated]), ReactorGroupOutcome::Terminated);
    assert_eq!(
        group_outcome(&vec![terminated, failed, failed]),
        ReactorGroupOutcome::Failed(ReactorId::new(1))
    );
    assert_eq!(
        group_outcome(&vec![failed, panicked, stopped, panicked]),
        ReactorGroupOutcome::Panicked(ReactorId::new(1))
    );
    assert!(is_fatal(failed));
    assert!(is_fatal(panicked));
    assert!(!is_fatal(terminated));
    assert!(!is_fatal(stopped));
}

#[test]
fn group_exit_lists_members_by_identity() {
    let exit = ReactorGroupExit::from_members(vec!["a", "b"], &vec![MemberTerminal::Stopped, MemberTerminal::Failed]);
    assert_eq!(exit.outcome(), ReactorGroupOutcome::Failed(ReactorId::new(1)));
    assert_eq!(exit.len(), 2);
    assert!(!exit.is_empty());
    assert_eq!(exit.member(ReactorId::new(1)), Some(&"b"));
    assert_eq!(exit.member(ReactorId::new(2)), None);
    let listed: Vec<(u64, &str)> = exit.members().into_iter().map(|(id, m)| (id.get(), *m)).collect();
    assert_eq!(listed, vec![(0, "a"), (1, "b")]);
    assert_eq!(exit.into_members(), vec!["a", "b"]);
}

#[test]
fn routing_checks_admission_then_topology() {
    let reactors = count(2);
    let closed = route::<u8, ()>(false, reactors, ReactorId::new(0), Lane::Work, 7).expect_err("closed");
    assert_eq!(closed.failure(), &ReactorGroupSendFailure::Closed);
    assert_eq!(closed.lane(), Lane::Work);
    assert_eq!(closed.into_item(), 7);
    let unknown = route::<u8, ()>(true, reactors, ReactorId::new(2), Lane::Control, 8).expect_err("unknown");
    assert_eq!(
        unknown.into_parts(),
        (8, Lane::Control, ReactorGroupSendFailure::UnknownReactor { reactor: ReactorId::new(2), reactors })
    );
    assert_eq!(route::<u8, ()>(true, reactors, ReactorId::new(1), Lane::Work, 9).ok(), Some((1, 9)));
}

#[test]
fn topology_validation() {
    let limits = ReactorGroupLimits::new(count(2));
    assert_eq!(limits.reactors(), count(2));
    assert!(matches!(validate(limits, 0), Err(ReactorGroupSpawnFailure::Empty)));
    assert!(validate(limits, 2).is_ok());
    match validate(limits, 3) {
        Err(ReactorGroupSpawnFailure::Capacity { limit, actual }) => {
            assert_eq!(limit, count(2));
            assert_eq!(actual, 3);
        },
        other => panic!("unexpected validation result {other:?}"),
    }
    let error = ReactorGroupSpawnError::new(ReactorGroupSpawnFailure::Empty, vec![1, 2]);
    assert!(matches!(error.failure(), ReactorGroupSpawnFailure::Empty));
    let (failure, members) = error.into_parts();
    assert!(matches!(failure, ReactorGroupSpawnFailure::Empty));
    assert_eq!(members, vec![1, 2]);
    assert_eq!(ReactorGroupSpawnError::new(ReactorGroupSpawnFailure::Empty, vec![3]).into_members(), vec![3]);
}

#[test]
fn reactor_identity_positions() {
    assert_eq!(ReactorId::from_position(3).get(), 3);
    assert_eq!(ReactorId::new(4).position(), Some(4));
}

#[test]
fn start_gate_keeps_the_first_decision() {
    let decided = decide(None, StartDecision::Start);
    assert_eq!(decided, Some(StartDecision::Start));
    assert_eq!(decide(decided, StartDecision::Abort), Some(StartDecision::Start));
}

#[test]
fn exit_ledger_orders_members_by_identity_whatever_the_arrival() {
    let mut ledger = ExitLedger::new(3);
    assert!(!ledger.is_complete());
    ledger.record(ReactorId::new(2), "c", MemberTerminal::Panicked);
    ledger.record(ReactorId::new(0), "a", MemberTerminal::Stopped);
    assert!(!ledger.is_complete());
    ledger.record(ReactorId::new(1), "b", MemberTerminal::Panicked);
    assert!(ledger.is_complete());
    let exit = ledger.finish();
    assert_eq!(exit.outcome(), ReactorGroupOutcome::Panicked(ReactorId::new(1)));
    assert_eq!(exit.into_members(), vec!["a", "b", "c"]);
}

#[test]
fn members_split_and_rejoin_in_topology_order() {
    let members = rejoin_members(vec!["r0", "r1"], vec![10, 11]);
    assert_eq!(members.len(), 2);
    assert_eq!(members[1].id(), ReactorId::new(1));
    assert_eq!(members[1].reactor(), &"r1");
    let (reactors, ingress) = split_members(members);
    assert_eq!(reactors, vec!["r0", "r1"]);
    assert_eq!(ingress, vec![10, 11]);
    let member = calandria::ReactorGroupMember::from_parts(ReactorId::new(5), 'x', 'y');
    assert_eq!(member.into_parts(), (ReactorId::new(5), 'x', 'y'));
    let spawn_error = calandria::ReactorSpawnError::new(std::io::Error::other("no threads"), 7);
    assert_eq!(spawn_error.source_error().to_string(), "no threads");
    assert_eq!(spawn_error.into_reactor(), 7);
}

#[test]
fn supervision_closes_admission_with_the_last_exit() {
    type Member = ReactorGroupMemberExit<&'static str, (), u8, u8, &'static str>;
    let exits: Vec<(u64, Member)> = vec![
        (1, ReactorGroupMemberExit::Exited(ReactorExit::new("h1", (), ReactorOutcome::Terminated))),
        (2, ReactorGroupMemberExit::Exited(ReactorExit::new(
            "h2",
            (),
            ReactorOutcome::Failed(ReactorFailure::Wait(9)),
        ))),
        (0, ReactorGroupMemberExit::Exited(ReactorExit::new("h0", (), ReactorOutcome::Stopped))),
    ];
    let mut supervisor = GroupSupervisor::new(count(3));
    assert!(supervisor.is_admission_open());
    let mut commands = Vec::new();
    for (position, exit) in exits {
        let terminal = exit.terminal();
        commands.push(supervisor.record(ReactorId::new(position), exit, terminal));
    }
    assert_eq!(
        commands,
        vec![
            SupervisorCommand::AwaitCompletion,
            SupervisorCommand::AwaitCompletion,
            SupervisorCommand::CloseAdmission,
        ]
    );
    assert!(!supervisor.is_admission_open());
    let exit = supervisor.finish();
    assert_eq!(exit.outcome(), ReactorGroupOutcome::Failed(ReactorId::new(2)));
    let hosts: Vec<&str> = exit
        .into_members()
        .into_iter()
        .map(|member| member.into_result().expect("no member panicked").into_host())
        .collect();
    assert_eq!(hosts, vec!["h0", "h1", "h2"]);
}

#[test]
fn a_panicked_member_beats_failures_and_keeps_its_payload() {
    type Member = ReactorGroupMemberExit<u8, u8, u8, u8, &'static str>;
    let mut supervisor = GroupSupervisor::new(count(2));
    let failed: Member = ReactorGroupMemberExit::Exited(ReactorExit::new(
        1,
        2,
        ReactorOutcome::Failed(ReactorFailure::Host(3)),
    ));
    assert_eq!(failed.terminal(), MemberTerminal::Failed);
    let panicked: Member = ReactorGroupMemberExit::Panicked("boom");
    assert_eq!(panicked.terminal(), MemberTerminal::Panicked);
    assert_eq!(supervisor.record(ReactorId::new(0), failed, MemberTerminal::Failed), SupervisorCommand::AwaitCompletion);
    assert!(supervisor.is_admission_open());
    assert_eq!(supervisor.record(ReactorId::new(1), panicked, MemberTerminal::Panicked), SupervisorCommand::CloseAdmission);
    let exit = supervisor.finish();
    assert_eq!(exit.outcome(), ReactorGroupOutcome::Panicked(ReactorId::new(1)));
    let mut members = exit.into_members().into_iter();
    let first = members.next().expect("two members").into_result().expect("exited");
    assert_eq!(first.outcome(), &ReactorOutcome::Failed(ReactorFailure::Host(3)));
    assert_eq!((first.host(), first.waiter()), (&1, &2));
    assert_eq!(first.into_parts(), (1, 2, ReactorOutcome::Failed(ReactorFailure::Host(3))));
    assert_eq!(members.next().expect("two members").into_result().err(), Some("boom"));
}
