use calandria::{AcknowledgeAction, WakeAction, WakePhase};

#[test]
fn wake_requests_coalesce_until_acknowledged() {
    assert_eq!(WakePhase::Idle.on_wake(), WakeAction::Claim);
    let delivered = WakePhase::Waking.after_source(true);
    assert_eq!(delivered, WakePhase::Requested);
    assert!(delivered.is_requested());
    assert_eq!(delivered.on_wake(), WakeAction::AlreadyRequested);
    assert_eq!(delivered.on_acknowledge(), AcknowledgeAction::Swap { to: WakePhase::Idle });
    assert!(!WakePhase::Idle.is_requested());
}

#[test]
fn acknowledgement_racing_a_wake_rearms() {
    assert_eq!(WakePhase::Waking.on_wake(), WakeAction::Retry);
    assert_eq!(
        WakePhase::Waking.on_acknowledge(),
        AcknowledgeAction::Swap { to: WakePhase::WakingAcknowledged }
    );
    assert_eq!(WakePhase::WakingAcknowledged.on_acknowledge(), AcknowledgeAction::Done);
    assert_eq!(WakePhase::WakingAcknowledged.after_source(true), WakePhase::Idle);
    assert_eq!(WakePhase::Idle.on_acknowledge(), AcknowledgeAction::Done);
}

#[test]
fn failed_wakes_reopen() {
    assert_eq!(WakePhase::Waking.after_source(false), WakePhase::Idle);
    assert_eq!(WakePhase::WakingAcknowledged.after_source(false), WakePhase::Idle);
}

#[test]
fn phase_codes_round_trip() {
    for phase in [WakePhase::Idle, WakePhase::Waking, WakePhase::Requested, WakePhase::WakingAcknowledged] {
        assert_eq!(WakePhase::from_code(phase.code()), Some(phase));
    }
    assert_eq!(WakePhase::Requested.code(), 2);
    assert_eq!(WakePhase::from_code(4), None);
}
