//! One-shot start or abort decision for ownership-safe group startup.

use vstd::prelude::*;

verus! {

/// Whether gated reactor workers start or abort.
#[derive(Clone, Copy, Debug, PartialEq, Eq, Structural)]
pub enum StartDecision {
    /// Run the reactors.
    Start,
    /// Return every reactor unstarted.
    Abort,
}

/// Gate transition: a decided gate keeps its decision, an undecided one adopts `selected`.
pub fn decide(current: Option<StartDecision>, selected: StartDecision) -> (next: Option<StartDecision>)
    ensures
        next == (match current {
            Some(decision) => Some(decision),
            None => Some(selected),
        }),
{
    match current {
        Some(decision) => Some(decision),
        None => Some(selected),
    }
}

/// Once decided, a gate never changes its decision, whatever is offered
/// later, so every worker observes the same decision.
pub proof fn lemma_first_decision_final(first: StartDecision, later: StartDecision)
    ensures
        (match (match Option::<StartDecision>::None {
            Some(decision) => Some(decision),
            None => Some(first),
        }) {
            Some(decision) => Some(decision),
            None => Some(later),
        }) == Some(first),
{
}

} // verus!
