//! Coalescing phase machine of a cross-thread wake handle.
//!
//! A wake handle keeps one of four phases in an atomic byte. Every decision
//! a waker or the owner makes on an observed phase is a function here; the
//! caller performs the compare-and-swap, the backend call, and the retry.

use vstd::prelude::*;

verus! {

/// Coalescing state of one wake handle.
#[derive(Clone, Copy, Debug, PartialEq, Eq, Structural)]
pub enum WakePhase {
    /// No wake is requested or being issued.
    Idle,
    /// One caller is issuing a backend wake.
    Waking,
    /// A wake was delivered and not yet acknowledged.
    Requested,
    /// The owner acknowledged while a backend wake was still being issued.
    WakingAcknowledged,
}

/// What a caller of `wake` does on an observed phase.
#[derive(Clone, Copy, Debug, PartialEq, Eq, Structural)]
pub enum WakeAction {
    /// A wake is already requested: report success without a backend call.
    AlreadyRequested,
    /// Try to claim the wake by moving `Idle` to `Waking`, then call the
    /// backend and report its result through [`WakePhase::after_source`].
    Claim,
    /// Another caller is issuing a wake: spin or yield, then observe again.
    Retry,
}

/// What the owner's acknowledgement does on an observed phase.
#[derive(Clone, Copy, Debug, PartialEq, Eq, Structural)]
pub enum AcknowledgeAction {
    /// Nothing is pending acknowledgement.
    Done,
    /// Swap the observed phase for `to`; observe again if the swap fails.
    Swap { to: WakePhase },
}

impl WakePhase {
    /// Byte encoding of the phase.
    pub open spec fn code_spec(self) -> u8 {
        match self {
            WakePhase::Idle => 0,
            WakePhase::Waking => 1,
            WakePhase::Requested => 2,
            WakePhase::WakingAcknowledged => 3,
        }
    }

    /// Returns the byte encoding of the phase.
    pub fn code(self) -> (code: u8)
        ensures
            code == self.code_spec(),
    {
        match self {
            WakePhase::Idle => 0,
            WakePhase::Waking => 1,
            WakePhase::Requested => 2,
            WakePhase::WakingAcknowledged => 3,
        }
    }

    /// Decodes a phase byte; bytes outside the four phases decode to `None`.
    pub fn from_code(code: u8) -> (phase: Option<WakePhase>)
        ensures
            match phase {
                Some(p) => p.code_spec() == code,
                None => code > 3,
            },
    {
        match code {
            0 => Some(WakePhase::Idle),
            1 => Some(WakePhase::Waking),
            2 => Some(WakePhase::Requested),
            3 => Some(WakePhase::WakingAcknowledged),
            _ => None,
        }
    }

    /// Whether a wake is requested or being issued.
    pub open spec fn is_requested_spec(self) -> bool {
        self != WakePhase::Idle
    }

    /// Returns whether a wake is requested or being issued.
    pub fn is_requested(self) -> (requested: bool)
        ensures
            requested == self.is_requested_spec(),
    {
        !matches!(self, WakePhase::Idle)
    }

    /// The decision of a `wake` caller on this phase.
    pub open spec fn on_wake_spec(self) -> WakeAction {
        match self {
            WakePhase::Requested => WakeAction::AlreadyRequested,
            WakePhase::Idle => WakeAction::Claim,
            _ => WakeAction::Retry,
        }
    }

    /// Decides what a `wake` caller does on this phase: only the first
    /// request after an acknowledgement reaches the backend.
    pub fn on_wake(self) -> (action: WakeAction)
        ensures
            action == self.on_wake_spec(),
    {
        match self {
            WakePhase::Requested => WakeAction::AlreadyRequested,
            WakePhase::Idle => WakeAction::Claim,
            WakePhase::Waking | WakePhase::WakingAcknowledged => WakeAction::Retry,
        }
    }

    /// The owner's acknowledgement decision on this phase.
    pub open spec fn on_acknowledge_spec(self) -> AcknowledgeAction {
        match self {
            WakePhase::Requested => AcknowledgeAction::Swap { to: WakePhase::Idle },
            WakePhase::Waking => AcknowledgeAction::Swap { to: WakePhase::WakingAcknowledged },
            _ => AcknowledgeAction::Done,
        }
    }

    /// Decides what the owner's acknowledgement does on this phase: a
    /// delivered wake is cleared, and a wake still being issued is marked so
    /// that its completion re-arms the handle.
    pub fn on_acknowledge(self) -> (action: AcknowledgeAction)
        ensures
            action == self.on_acknowledge_spec(),
    {
        match self {
            WakePhase::Requested => AcknowledgeAction::Swap { to: WakePhase::Idle },
            WakePhase::Waking => AcknowledgeAction::Swap { to: WakePhase::WakingAcknowledged },
            WakePhase::Idle | WakePhase::WakingAcknowledged => AcknowledgeAction::Done,
        }
    }

    /// The phase after the claimed backend wake returns.
    pub open spec fn after_source_spec(self, delivered: bool) -> WakePhase {
        if delivered && self == WakePhase::Waking {
            WakePhase::Requested
        } else {
            WakePhase::Idle
        }
    }

    /// The phase that replaces this one once the claimed backend wake
    /// returned: a delivered wake becomes requested unless the owner already
    /// acknowledged it, and a failed wake reopens the handle for a retry.
    ///
    /// Only the claiming caller reports, so the phase is one of the two
    /// issuing phases.
    pub fn after_source(self, delivered: bool) -> (next: WakePhase)
        requires
            self == WakePhase::Waking || self == WakePhase::WakingAcknowledged,
        ensures
            next == self.after_source_spec(delivered),
    {
        if delivered && matches!(self, WakePhase::Waking) {
            WakePhase::Requested
        } else {
            WakePhase::Idle
        }
    }
}

/// Coalescing: from a delivered, unacknowledged wake, further wake requests
/// succeed without reaching the backend.
pub proof fn lemma_requested_wakes_coalesce()
    ensures
        WakePhase::Waking.after_source_spec(true) == WakePhase::Requested,
        WakePhase::Requested.on_wake_spec() == WakeAction::AlreadyRequested,
{
}

/// An acknowledgement that races an in-flight wake re-arms the handle: once
/// the wake completes the phase is idle, so the next request reaches the
/// backend again.
pub proof fn lemma_acknowledge_during_wake_rearms(delivered: bool)
    ensures
        WakePhase::Waking.on_acknowledge_spec() == (AcknowledgeAction::Swap {
            to: WakePhase::WakingAcknowledged,
        }),
        WakePhase::WakingAcknowledged.after_source_spec(delivered) == WakePhase::Idle,
        WakePhase::Idle.on_wake_spec() == WakeAction::Claim,
{
}

/// A failed backend wake never reports success and always reopens the handle,
/// so one later caller may retry.
pub proof fn lemma_failed_wake_reopens(phase: WakePhase)
    requires
        phase == WakePhase::Waking || phase == WakePhase::WakingAcknowledged,
    ensures
        phase.after_source_spec(false) == WakePhase::Idle,
        phase.after_source_spec(false).on_wake_spec() == WakeAction::Claim,
{
}

/// After acknowledgement of a delivered wake, the handle reports no request.
pub proof fn lemma_acknowledged_wake_is_idle()
    ensures
        WakePhase::Requested.on_acknowledge_spec() == (AcknowledgeAction::Swap {
            to: WakePhase::Idle,
        }),
        !WakePhase::Idle.is_requested_spec(),
{
}

/// The byte encoding is a bijection onto its four codes.
pub proof fn lemma_code_round_trip(phase: WakePhase)
    ensures
        phase.code_spec() <= 3,
        forall|other: WakePhase| other.code_spec() == phase.code_spec() ==> other == phase,
{
}

/// A waker reports success without a backend call only for a delivered
/// wake that still awaits the owner's acknowledgement: exactly in the phase
/// that an acknowledgement clears back to idle. While a backend wake is being
/// issued, acknowledged or not, every other waker retries, and only an idle
/// handle lets a waker claim a new wake.
pub proof fn lemma_wake_decisions(phase: WakePhase)
    ensures
        phase.on_wake_spec() == WakeAction::AlreadyRequested <==> phase == WakePhase::Requested,
        phase.on_wake_spec() == WakeAction::AlreadyRequested <==> phase.on_acknowledge_spec()
            == (AcknowledgeAction::Swap { to: WakePhase::Idle }),
        phase == WakePhase::Waking ==> phase.on_wake_spec() == WakeAction::Retry,
        phase == WakePhase::WakingAcknowledged ==> phase.on_wake_spec() == WakeAction::Retry,
        phase.on_wake_spec() == WakeAction::Claim <==> phase == WakePhase::Idle,
{
}

/// A wake is reported as requested in exactly the phases in which a new
/// waker cannot claim one: a wake is delivered, or one is being issued with
/// or without an acknowledgement; only the idle handle reports none.
pub proof fn lemma_requested_until_idle(phase: WakePhase)
    ensures
        phase.is_requested_spec() <==> phase.on_wake_spec() != WakeAction::Claim,
        phase.is_requested_spec() <==> phase != WakePhase::Idle,
        phase == WakePhase::Waking ==> phase.is_requested_spec(),
        phase == WakePhase::WakingAcknowledged ==> phase.is_requested_spec(),
        phase == WakePhase::Requested ==> phase.is_requested_spec(),
{
}

} // verus!
