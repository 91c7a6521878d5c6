use calandria::{Deadline, Moment, Next, Span, Turn, WorkCount};

#[test]
fn moment_arithmetic_is_checked() {
    let start = Moment::from_nanos(10);
    assert_eq!(start.as_nanos(), 10);
    assert_eq!(Moment::origin().as_nanos(), 0);
    assert_eq!(start.checked_add(Span::from_nanos(5)), Some(Moment::from_nanos(15)));
    assert_eq!(Moment::from_nanos(u64::MAX).checked_add(Span::from_nanos(1)), None);
    assert_eq!(Moment::from_nanos(15).duration_since(start), Some(Span::from_nanos(5)));
    assert_eq!(start.duration_since(Moment::from_nanos(15)), None);
}

#[test]
fn span_conversions_and_minimum() {
    assert_eq!(Span::checked_from_millis(3), Some(Span::from_nanos(3_000_000)));
    assert_eq!(Span::checked_from_millis(u64::MAX), None);
    assert_eq!(Span::from_nanos(1).checked_add(Span::from_nanos(2)), Some(Span::from_nanos(3)));
    assert_eq!(Span::from_nanos(u64::MAX).checked_add(Span::from_nanos(1)), None);
    assert_eq!(Span::from_nanos(4).min(Span::from_nanos(9)), Span::from_nanos(4));
    assert_eq!(Span::from_nanos(9).min(Span::from_nanos(4)), Span::from_nanos(4));
    assert_eq!(Span::zero().as_nanos(), 0);
    assert_eq!(Span::from_nanos(1_500).as_duration(), std::time::Duration::from_nanos(1_500));
}

#[test]
fn span_from_duration_rejects_overflow() {
    let fits = std::time::Duration::from_micros(7);
    assert_eq!(Span::try_from_duration(fits).ok(), Some(Span::from_nanos(7_000)));
    let huge = std::time::Duration::from_secs(u64::MAX);
    match Span::try_from_duration(huge) {
        Ok(_) => panic!("an oversized duration must be rejected"),
        Err(overflow) => assert_eq!(overflow.duration(), huge),
    }
}

#[test]
fn deadline_elapses_and_clamps_remaining() {
    let deadline = Deadline::at(Moment::from_nanos(100));
    assert_eq!(deadline.moment(), Moment::from_nanos(100));
    assert!(!deadline.is_elapsed_at(Moment::from_nanos(99)));
    assert!(deadline.is_elapsed_at(Moment::from_nanos(100)));
    assert_eq!(deadline.remaining_at(Moment::from_nanos(40)), Span::from_nanos(60));
    assert_eq!(deadline.remaining_at(Moment::from_nanos(140)), Span::zero());
}

#[test]
fn next_merge_prefers_immediate_work_and_earliest_deadline() {
    let early = Deadline::at(Moment::from_nanos(5));
    let late = Deadline::at(Moment::from_nanos(9));
    assert_eq!(Next::Now.merge(Next::Stop), Next::Now);
    assert_eq!(Next::Wake.merge(Next::Now), Next::Now);
    assert_eq!(Next::WakeOr(late).merge(Next::WakeOr(early)), Next::WakeOr(early));
    assert_eq!(Next::WakeOr(early).merge(Next::WakeOr(late)), Next::WakeOr(early));
    assert_eq!(Next::Wake.merge(Next::WakeOr(late)), Next::WakeOr(late));
    assert_eq!(Next::Stop.merge(Next::Wake), Next::Wake);
    assert_eq!(Next::Stop.merge(Next::Stop), Next::Stop);
}

#[test]
fn next_merge_laws_on_samples() {
    let samples = [
        Next::Now,
        Next::Wake,
        Next::Stop,
        Next::WakeOr(Deadline::at(Moment::from_nanos(3))),
        Next::WakeOr(Deadline::at(Moment::from_nanos(8))),
    ];
    for a in samples {
        assert_eq!(a.merge(Next::Stop), a);
        assert_eq!(a.merge(Next::Now), Next::Now);
        assert_eq!(a.merge(a), a);
        for b in samples {
            assert_eq!(a.merge(b), b.merge(a));
            for c in samples {
                assert_eq!(a.merge(b).merge(c), a.merge(b.merge(c)));
            }
        }
    }
}

#[test]
fn bounded_wait_respects_ceiling() {
    let now = Moment::from_nanos(10);
    let ceiling = Span::from_nanos(50);
    assert_eq!(Next::Now.bounded_wait(now, ceiling), Span::zero());
    assert_eq!(Next::Wake.bounded_wait(now, ceiling), ceiling);
    assert_eq!(Next::Stop.bounded_wait(now, ceiling), ceiling);
    let near = Next::WakeOr(Deadline::at(Moment::from_nanos(30)));
    assert_eq!(near.bounded_wait(now, ceiling), Span::from_nanos(20));
    let far = Next::WakeOr(Deadline::at(Moment::from_nanos(500)));
    assert_eq!(far.bounded_wait(now, ceiling), ceiling);
    let past = Next::WakeOr(Deadline::at(Moment::from_nanos(3)));
    assert_eq!(past.bounded_wait(now, ceiling), Span::zero());
}

#[test]
fn turns_merge_work_and_interest() {
    let deadline = Deadline::at(Moment::from_nanos(42));
    assert_eq!(Turn::waiting().work(), WorkCount::zero());
    assert_eq!(Turn::waiting().next(), Next::Wake);
    assert_eq!(Turn::runnable(WorkCount::new(2)).next(), Next::Now);
    assert_eq!(Turn::until(WorkCount::new(1), deadline).next(), Next::WakeOr(deadline));
    assert_eq!(Turn::stopped(WorkCount::new(3)).next(), Next::Stop);
    let merged = Turn::until(WorkCount::new(1), deadline).merge(Turn::stopped(WorkCount::new(3)));
    assert_eq!(merged, Turn::new(WorkCount::new(4), Next::WakeOr(deadline)));
    let saturated = Turn::runnable(WorkCount::new(u64::MAX)).merge(Turn::runnable(WorkCount::new(7)));
    assert_eq!(saturated.work().get(), u64::MAX);
    assert_eq!(WorkCount::new(5).saturating_add(WorkCount::new(6)).get(), 11);
}

#[test]
fn span_round_trips_through_duration() {
    for nanos in [0u64, 1, 999, 1_000_000_007, u64::MAX] {
        let span = Span::from_nanos(nanos);
        assert_eq!(Span::try_from(span.as_duration()).ok(), Some(span));
    }
    let huge = std::time::Duration::from_secs(u64::MAX);
    match Span::try_from(huge) {
        Ok(_) => panic!("an oversized duration must be rejected"),
        Err(overflow) => assert_eq!(overflow.duration(), huge),
    }
}
