//! Fixed-width monotonic time: moments, spans, and absolute deadlines.

use vstd::prelude::*;

verus! {

/// Nanoseconds elapsed from one owner-defined monotonic origin.
#[derive(Clone, Copy, Debug, Default, PartialEq, Eq, Hash, PartialOrd, Ord, Structural)]
pub struct Moment(u64);

/// A nonnegative virtual or monotonic duration in nanoseconds.
#[derive(Clone, Copy, Debug, Default, PartialEq, Eq, Hash, PartialOrd, Ord, Structural)]
pub struct Span(u64);

/// An absolute moment by which an owner must receive another turn.
#[derive(Clone, Copy, Debug, PartialEq, Eq, Hash, PartialOrd, Ord, Structural)]
pub struct Deadline(Moment);

/// A core duration could not fit in the fixed-width nanosecond time domain.
#[derive(Clone, Copy, Debug)]
pub struct DurationOverflow {
    duration: core::time::Duration,
}

/// Name for the nanosecond count that `Duration::as_nanos` reports.
pub uninterp spec fn duration_nanos(duration: core::time::Duration) -> u128;

/// Calls `Duration::as_nanos`; its result is named by `duration_nanos`.
#[verifier::external_body]
fn duration_as_nanos(duration: &core::time::Duration) -> (nanos: u128)
    ensures
        nanos == duration_nanos(*duration),
{
    duration.as_nanos()
}

impl Moment {
    /// Elapsed nanoseconds of this moment.
    pub closed spec fn nanos(self) -> u64 {
        self.0
    }

    /// Two moments with the same nanosecond count are the same moment.
    pub proof fn lemma_nanos_injective(a: Moment, b: Moment)
        ensures
            a.nanos() == b.nanos() <==> a == b,
    {
    }

    /// The relative monotonic origin.
    pub fn origin() -> (moment: Moment)
        ensures
            moment.nanos() == 0,
    {
        Moment(0)
    }

    /// Creates a moment from elapsed nanoseconds.
    pub fn from_nanos(nanos: u64) -> (moment: Moment)
        ensures
            moment.nanos() == nanos,
    {
        Moment(nanos)
    }

    /// Returns elapsed nanoseconds from the owner-defined origin.
    pub fn as_nanos(self) -> (nanos: u64)
        ensures
            nanos == self.nanos(),
    {
        self.0
    }

    /// Advances by `span`, returning `None` if the time domain overflows.
    pub fn checked_add(self, span: Span) -> (moment: Option<Moment>)
        ensures
            self.nanos() + span.nanos() <= u64::MAX ==> moment == Some(
                Moment::from_nanos_spec((self.nanos() + span.nanos()) as u64),
            ),
            self.nanos() + span.nanos() > u64::MAX ==> moment is None,
    {
        match self.0.checked_add(span.0) {
            Some(value) => Some(Moment(value)),
            None => None,
        }
    }

    /// Measures elapsed time since `earlier`, or `None` if it is later.
    pub fn duration_since(self, earlier: Moment) -> (span: Option<Span>)
        ensures
            earlier.nanos() <= self.nanos() ==> span == Some(
                Span::from_nanos_spec((self.nanos() - earlier.nanos()) as u64),
            ),
            earlier.nanos() > self.nanos() ==> span is None,
    {
        match self.0.checked_sub(earlier.0) {
            Some(value) => Some(Span(value)),
            None => None,
        }
    }

    /// The moment holding exactly `nanos` nanoseconds.
    pub closed spec fn from_nanos_spec(nanos: u64) -> Moment {
        Moment(nanos)
    }

    /// The spec constructor and the nanosecond view agree.
    pub broadcast proof fn lemma_from_nanos_spec(nanos: u64)
        ensures
            #[trigger] Moment::from_nanos_spec(nanos).nanos() == nanos,
    {
    }
}

impl Span {
    /// Nanoseconds of this span.
    pub closed spec fn nanos(self) -> u64 {
        self.0
    }

    /// Two spans with the same nanosecond count are the same span.
    pub proof fn lemma_nanos_injective(a: Span, b: Span)
        ensures
            a.nanos() == b.nanos() <==> a == b,
    {
    }

    /// The span holding exactly `nanos` nanoseconds.
    pub closed spec fn from_nanos_spec(nanos: u64) -> Span {
        Span(nanos)
    }

    /// The spec constructor and the nanosecond view agree.
    pub broadcast proof fn lemma_from_nanos_spec(nanos: u64)
        ensures
            #[trigger] Span::from_nanos_spec(nanos).nanos() == nanos,
    {
    }

    /// A zero-length span.
    pub fn zero() -> (span: Span)
        ensures
            span.nanos() == 0,
    {
        Span(0)
    }

    /// Creates a span from nanoseconds.
    pub fn from_nanos(nanos: u64) -> (span: Span)
        ensures
            span.nanos() == nanos,
    {
        Span(nanos)
    }

    /// Creates a span from milliseconds with checked multiplication.
    pub fn checked_from_millis(milliseconds: u64) -> (span: Option<Span>)
        ensures
            milliseconds * 1_000_000 <= u64::MAX ==> span == Some(
                Span::from_nanos_spec((milliseconds * 1_000_000) as u64),
            ),
            milliseconds * 1_000_000 > u64::MAX ==> span is None,
    {
        match milliseconds.checked_mul(1_000_000) {
            Some(value) => Some(Span(value)),
            None => None,
        }
    }

    /// Returns the span as nanoseconds.
    pub fn as_nanos(self) -> (nanos: u64)
        ensures
            nanos == self.nanos(),
    {
        self.0
    }

    /// Returns the span as a core duration.
    pub fn as_duration(self) -> (duration: core::time::Duration)
        ensures
            duration_nanos(duration) == self.nanos(),
    {
        duration_from_nanos(self.0)
    }

    /// Adds two spans, returning `None` on overflow.
    pub fn checked_add(self, other: Span) -> (span: Option<Span>)
        ensures
            self.nanos() + other.nanos() <= u64::MAX ==> span == Some(
                Span::from_nanos_spec((self.nanos() + other.nanos()) as u64),
            ),
            self.nanos() + other.nanos() > u64::MAX ==> span is None,
    {
        match self.0.checked_add(other.0) {
            Some(value) => Some(Span(value)),
            None => None,
        }
    }

    /// Returns the smaller span; the receiver wins a tie.
    pub fn min(self, other: Span) -> (span: Span)
        ensures
            span == (if self.nanos() <= other.nanos() { self } else { other }),
    {
        if self.0 <= other.0 {
            self
        } else {
            other
        }
    }

    /// Converts a core duration, failing when it exceeds `u64::MAX` nanoseconds.
    pub fn try_from_duration(duration: core::time::Duration) -> (span: Result<Span, DurationOverflow>)
        ensures
            duration_nanos(duration) <= u64::MAX ==> span == Ok::<Span, DurationOverflow>(
                Span::from_nanos_spec(duration_nanos(duration) as u64),
            ),
            duration_nanos(duration) > u64::MAX ==> (span matches Err(e) && e.duration_spec()
                == duration),
    {
        let nanos = duration_as_nanos(&duration);
        if nanos <= 0xffff_ffff_ffff_ffffu128 {
            Ok(Span(nanos as u64))
        } else {
            Err(DurationOverflow { duration })
        }
    }
}

/// Calls `Duration::from_nanos`; the documentation gives that `as_nanos`
/// of the result returns the same count.
#[verifier::external_body]
fn duration_from_nanos(nanos: u64) -> (duration: core::time::Duration)
    ensures
        duration_nanos(duration) == nanos,
{
    core::time::Duration::from_nanos(nanos)
}

impl Deadline {
    /// The absolute moment of this deadline.
    pub closed spec fn moment_spec(self) -> Moment {
        self.0
    }

    /// Nanoseconds of the absolute moment.
    pub open spec fn nanos(self) -> u64 {
        self.moment_spec().nanos()
    }

    /// The deadline at exactly `moment`.
    pub closed spec fn at_spec(moment: Moment) -> Deadline {
        Deadline(moment)
    }

    /// The spec constructor and the moment view agree.
    pub broadcast proof fn lemma_at_spec(moment: Moment)
        ensures
            #[trigger] Deadline::at_spec(moment).moment_spec() == moment,
    {
    }

    /// Two deadlines at the same moment are the same deadline.
    pub proof fn lemma_moment_injective(a: Deadline, b: Deadline)
        ensures
            a.moment_spec() == b.moment_spec() <==> a == b,
    {
    }

    /// Creates an absolute deadline.
    pub fn at(moment: Moment) -> (deadline: Deadline)
        ensures
            deadline.moment_spec() == moment,
    {
        Deadline(moment)
    }

    /// Returns the absolute moment.
    pub fn moment(self) -> (moment: Moment)
        ensures
            moment == self.moment_spec(),
    {
        self.0
    }

    /// Returns whether this deadline is due at `now`.
    pub fn is_elapsed_at(self, now: Moment) -> (elapsed: bool)
        ensures
            elapsed == (self.nanos() <= now.nanos()),
    {
        self.0.0 <= now.0
    }

    /// Returns the remaining span, clamped to zero once elapsed.
    pub fn remaining_at(self, now: Moment) -> (span: Span)
        ensures
            span.nanos() == (if self.nanos() >= now.nanos() {
                self.nanos() - now.nanos()
            } else {
                0
            }),
    {
        match self.0.0.checked_sub(now.0) {
            Some(value) => Span(value),
            None => Span(0),
        }
    }
}

impl DurationOverflow {
    /// The rejected duration.
    pub closed spec fn duration_spec(self) -> core::time::Duration {
        self.duration
    }

    /// Returns the rejected duration.
    pub fn duration(self) -> (duration: core::time::Duration)
        ensures
            duration == self.duration_spec(),
    {
        self.duration
    }
}

/// The result of converting `duration` into a span.
pub closed spec fn span_from_duration(duration: core::time::Duration) -> Result<Span, DurationOverflow> {
    if duration_nanos(duration) <= u64::MAX {
        Ok(Span(duration_nanos(duration) as u64))
    } else {
        Err(DurationOverflow { duration })
    }
}

/// Converting a duration gives the span of its nanosecond count when that
/// count fits in `u64`, and otherwise an overflow that carries the duration.
pub proof fn lemma_span_from_duration(duration: core::time::Duration)
    ensures
        duration_nanos(duration) <= u64::MAX ==> span_from_duration(duration) == Ok::<
            Span,
            DurationOverflow,
        >(Span::from_nanos_spec(duration_nanos(duration) as u64)),
        duration_nanos(duration) > u64::MAX ==> (span_from_duration(duration) matches Err(e)
            && e.duration_spec() == duration),
{
}

/// A span converted to a duration converts back to the same span.
pub proof fn lemma_duration_round_trip(span: Span, duration: core::time::Duration)
    requires
        duration_nanos(duration) == span.nanos(),
    ensures
        span_from_duration(duration) == Ok::<Span, DurationOverflow>(span),
{
}

/// The facts that tie each spec constructor of the time domain to its view.
pub broadcast group group_time {
    Moment::lemma_from_nanos_spec,
    Span::lemma_from_nanos_spec,
    Deadline::lemma_at_spec,
}

impl TryFrom<core::time::Duration> for Span {
    type Error = DurationOverflow;

    /// Converts a core duration, failing when it exceeds `u64::MAX`
    /// nanoseconds.
    fn try_from(duration: core::time::Duration) -> (span: Result<Span, DurationOverflow>)
        ensures
            duration_nanos(duration) <= u64::MAX ==> span == Ok::<Span, DurationOverflow>(
                Span::from_nanos_spec(duration_nanos(duration) as u64),
            ),
            duration_nanos(duration) > u64::MAX ==> (span matches Err(e) && e.duration_spec()
                == duration),
    {
        let converted = Span::try_from_duration(duration);
        proof {
            if duration_nanos(duration) <= u64::MAX {
                Span::lemma_nanos_injective(
                    converted->Ok_0,
                    Span::from_nanos_spec(duration_nanos(duration) as u64),
                );
            }
        }
        converted
    }
}

impl vstd::std_specs::convert::TryFromSpecImpl<core::time::Duration> for Span {
    open spec fn obeys_try_from_spec() -> bool {
        true
    }

    open spec fn try_from_spec(duration: core::time::Duration) -> Result<Span, DurationOverflow> {
        span_from_duration(duration)
    }
}

impl From<Moment> for Deadline {
    /// The deadline at `moment`.
    fn from(moment: Moment) -> (deadline: Deadline) {
        Deadline::at(moment)
    }
}

impl vstd::std_specs::convert::FromSpecImpl<Moment> for Deadline {
    open spec fn obeys_from_spec() -> bool {
        true
    }

    open spec fn from_spec(moment: Moment) -> Deadline {
        Deadline::at_spec(moment)
    }
}

} // verus!
