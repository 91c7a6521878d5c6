use calandria::{
    Deadline, Moment, NonZeroCount, Retained, RetainedBytes, RetainedMeasure, TimerId, TimerLimits,
    TimerOwnerId, TimerQueue, TimerScheduleFailure,
};

#[derive(Debug, PartialEq, Eq)]
struct Payload(&'static str, u64);

impl Retained for Payload {
    fn retained_bytes(&self) -> RetainedBytes {
        RetainedBytes::new(self.1)
    }
}

struct ByLength;

impl RetainedMeasure<String> for ByLength {
    fn measure(&self, value: &String) -> RetainedBytes {
        RetainedBytes::new(value.len() as u64)
    }
}

fn count(value: usize) -> NonZeroCount {
    NonZeroCount::new(value).expect("test counts are nonzero")
}

fn at(nanos: u64) -> Deadline {
    Deadline::at(Moment::from_nanos(nanos))
}

fn limits(timers: usize, bytes: u64) -> TimerLimits {
    TimerLimits::new(count(timers), RetainedBytes::new(bytes))
}

#[test]
fn due_timers_fire_by_deadline_then_admission() {
    let mut queue = TimerQueue::new(TimerOwnerId::new(1), limits(8, 100));
    let late = queue.schedule(at(30), Payload("late", 1)).expect("room");
    let first = queue.schedule(at(10), Payload("first", 2)).expect("room");
    let second = queue.schedule(at(10), Payload("second", 3)).expect("room");
    assert_eq!(queue.len(), 3);
    assert_eq!(queue.next_deadline(), Some(at(10)));
    assert!(first.id().get() < second.id().get());
    assert_eq!(late.id(), TimerId::new(0));

    assert!(queue.pop_due(Moment::from_nanos(5)).is_none());
    let fired = queue.pop_due(Moment::from_nanos(10)).expect("due");
    assert_eq!(fired.token(), first);
    assert_eq!(fired.value(), &Payload("first", 2));
    assert_eq!(fired.measured_retained_bytes(), RetainedBytes::new(2));
    let fired = queue.pop_due(Moment::from_nanos(10)).expect("due");
    assert_eq!(fired.into_parts(), (second, Payload("second", 3)));
    assert!(queue.pop_due(Moment::from_nanos(29)).is_none());
    assert_eq!(queue.pop_due(Moment::from_nanos(31)).map(|t| t.into_value()), Some(Payload("late", 1)));
    assert!(queue.is_empty());
}

#[test]
fn drain_respects_budget_and_reports_more_due() {
    let mut queue = TimerQueue::new(TimerOwnerId::new(2), limits(8, 100));
    for nanos in [5, 1, 3, 9] {
        queue.schedule(at(nanos), Payload("t", 0)).expect("room");
    }
    let mut fired = Vec::new();
    let drain = queue.drain_due_into(Moment::from_nanos(6), &mut fired, count(2));
    assert_eq!(drain.fired(), 2);
    assert!(drain.more_due());
    let deadlines: Vec<u64> = fired.iter().map(|t| t.deadline().moment().as_nanos()).collect();
    assert_eq!(deadlines, vec![1, 3]);
    let drain = queue.drain_due_into(Moment::from_nanos(6), &mut fired, count(5));
    assert_eq!(drain.fired(), 1);
    assert!(!drain.more_due());
    assert_eq!(fired.len(), 3);
    assert_eq!(queue.len(), 1);
}

#[test]
fn cancellation_is_exact_and_single() {
    let mut queue = TimerQueue::new(TimerOwnerId::new(3), limits(8, 100));
    let a = queue.schedule(at(10), Payload("a", 4)).expect("room");
    let b = queue.schedule(at(20), Payload("b", 6)).expect("room");
    assert_eq!(queue.snapshot().retained_bytes(), RetainedBytes::new(10));
    let cancelled = queue.cancel(a).expect("pending");
    assert_eq!(cancelled.token(), a);
    assert!(queue.cancel(a).is_none());
    assert_eq!(queue.snapshot().retained_bytes(), RetainedBytes::new(6));
    let mut foreign_queue = TimerQueue::new(TimerOwnerId::new(4), limits(8, 100));
    let foreign = foreign_queue.schedule(at(20), Payload("x", 0)).expect("room");
    assert!(queue.cancel(foreign).is_none());
    assert_eq!(queue.iter().len(), 1);
    assert_eq!(queue.iter()[0].token(), b);
}

#[test]
fn schedule_failures_return_the_value() {
    let mut queue = TimerQueue::new(TimerOwnerId::new(5), limits(1, 10));
    let heavy = queue.schedule(at(1), Payload("heavy", 11)).expect_err("over byte limit");
    assert_eq!(
        heavy.failure(),
        TimerScheduleFailure::RetainedByteCapacity {
            limit: RetainedBytes::new(10),
            current: RetainedBytes::zero(),
            timer: RetainedBytes::new(11),
        }
    );
    assert_eq!(heavy.deadline(), at(1));
    assert_eq!(heavy.value(), &Payload("heavy", 11));
    queue.schedule(at(1), Payload("fits", 10)).expect("room");
    let full = queue.schedule(at(2), Payload("full", 0)).expect_err("count limit");
    assert_eq!(full.failure(), TimerScheduleFailure::TimerCapacity { limit: count(1) });
    assert_eq!(full.into_parts(), (at(2), Payload("full", 0), TimerScheduleFailure::TimerCapacity { limit: count(1) }));
}

#[test]
fn retained_overflow_is_reported() {
    let mut queue = TimerQueue::new(TimerOwnerId::new(6), limits(4, u64::MAX));
    queue.schedule(at(1), Payload("big", u64::MAX - 1)).expect("room");
    let overflow = queue.schedule(at(1), Payload("more", 2)).expect_err("overflow");
    assert_eq!(
        overflow.failure(),
        TimerScheduleFailure::RetainedByteOverflow {
            current: RetainedBytes::new(u64::MAX - 1),
            timer: RetainedBytes::new(2),
        }
    );
    assert_eq!(overflow.into_value(), Payload("more", 2));
}

#[test]
fn identities_exhaust_after_the_last_one() {
    let mut queue =
        TimerQueue::starting_at(TimerOwnerId::new(7), limits(4, 100), TimerId::new(u64::MAX));
    let last = queue.schedule(at(1), Payload("last", 0)).expect("room");
    assert_eq!(last.id(), TimerId::new(u64::MAX));
    assert!(queue.snapshot().identities_exhausted());
    assert_eq!(queue.snapshot().next_id(), None);
    let rejected = queue.schedule(at(1), Payload("none", 0)).expect_err("exhausted");
    assert_eq!(rejected.failure(), TimerScheduleFailure::TimerIdsExhausted);
}

#[test]
fn explicit_measure_and_snapshot() {
    let owner = TimerOwnerId::new(8);
    let mut queue = TimerQueue::with_measure(owner, limits(4, 100), ByLength);
    let token = queue.schedule(at(9), "hello".to_string()).expect("room");
    assert_eq!(token.owner(), owner);
    assert_eq!(token.deadline(), at(9));
    let snapshot = queue.snapshot();
    assert_eq!(snapshot.owner(), owner);
    assert_eq!(snapshot.limits(), limits(4, 100));
    assert_eq!(snapshot.pending_timers(), 1);
    assert_eq!(snapshot.retained_bytes(), RetainedBytes::new(5));
    assert_eq!(snapshot.next_deadline(), Some(at(9)));
    assert_eq!(snapshot.next_id(), Some(TimerId::new(1)));
    assert_eq!(queue.owner(), owner);
    assert_eq!(queue.limits().timers(), count(4));
    assert_eq!(queue.limits().retained_bytes(), RetainedBytes::new(100));
    let measured = queue
        .schedule_measured(at(3), "abc".to_string(), RetainedBytes::new(40))
        .expect("room");
    assert_eq!(queue.snapshot().retained_bytes(), RetainedBytes::new(45));
    assert_eq!(queue.cancel(measured).map(|t| t.measured_retained_bytes()), Some(RetainedBytes::new(40)));
}

#[test]
fn default_limits() {
    let defaults = TimerLimits::default();
    assert_eq!(defaults.timers().get(), 1024);
    assert_eq!(defaults.retained_bytes().get(), 16 * 1024 * 1024);
}

#[test]
fn zero_byte_limit_admits_only_unmeasured_values() {
    let mut queue = TimerQueue::new(TimerOwnerId::new(9), limits(2, 0));
    let rejected = queue.schedule(at(1), Payload("sized", 1)).expect_err("byte limit");
    assert_eq!(
        rejected.failure(),
        TimerScheduleFailure::RetainedByteCapacity {
            limit: RetainedBytes::zero(),
            current: RetainedBytes::zero(),
            timer: RetainedBytes::new(1),
        }
    );
    assert!(queue.schedule(at(1), Payload("fixed", 0)).is_ok());
}

#[test]
fn drain_fires_the_smaller_of_budget_and_due_count() {
    for budget in 1..=5usize {
        let mut queue = TimerQueue::new(TimerOwnerId::new(4), limits(8, 100));
        for nanos in [7, 2, 4, 12, 6] {
            queue.schedule(at(nanos), Payload("t", 0)).expect("room");
        }
        let due = 4usize;
        let mut fired = Vec::new();
        let drain = queue.drain_due_into(Moment::from_nanos(7), &mut fired, count(budget));
        assert_eq!(drain.fired(), budget.min(due));
        assert_eq!(drain.more_due(), due > budget.min(due));
        assert_eq!(queue.len(), 5 - budget.min(due));
        let expected: Vec<u64> = [2, 4, 6, 7].iter().copied().take(budget.min(due)).collect();
        let deadlines: Vec<u64> = fired.iter().map(|t| t.deadline().moment().as_nanos()).collect();
        assert_eq!(deadlines, expected);
    }
}

#[test]
fn scheduling_charges_what_the_measure_reports() {
    let mut queue: TimerQueue<String, ByLength> =
        TimerQueue::with_measure(TimerOwnerId::new(5), limits(4, 10), ByLength);
    queue.schedule(at(1), "abcd".to_string()).expect("room");
    assert_eq!(queue.snapshot().retained_bytes(), RetainedBytes::new(4));
    let rejected = queue.schedule(at(2), "1234567".to_string()).expect_err("over the byte limit");
    assert_eq!(rejected.into_value(), "1234567".to_string());
    assert_eq!(queue.snapshot().retained_bytes(), RetainedBytes::new(4));
}
