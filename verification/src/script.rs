//! A computation as the blocking bridge observes it: the sequence of results
//! its poll steps will report, in order. The bridge never looks inside the
//! computation; polling it one step at a time is the whole interface, so the
//! sequence of steps is a faithful model of any computation the bridge can be
//! handed.

use vstd::prelude::*;
use crate::outcome::Outcome;

verus! {

/// What one poll of the computation reports.
pub enum StepKind<T> {
    /// The computation is done and produces this value. Nothing is polled
    /// after it.
    Ready(T),
    /// Not yet. `wakes` says whether the computation arranges for its wakeup
    /// handle to be woken (synchronously during the poll, or from another
    /// unit before the bridge's park completes); a computation that reports
    /// "not yet" and never wakes leaves the bridge parked forever, by design.
    Pending { wakes: bool },
    /// The poll step failed abruptly with this payload. Nothing is polled
    /// after it.
    Fault(String),
}

/// True for the steps that end the computation.
pub open spec fn is_terminal<T>(step: StepKind<T>) -> bool {
    step is Ready || step is Fault
}

/// A computation, as the remaining sequence of poll results it will report.
/// `steps[0]` is what the next poll reports.
pub struct Script<T> {
    /// The remaining poll results, next first.
    pub steps: Vec<StepKind<T>>,
}

impl<T> Script<T> {
    /// The remaining poll results.
    pub open spec fn rem(self) -> Seq<StepKind<T>> {
        self.steps@
    }

    /// A computation the blocking bridge can drive to completion: it ends
    /// with a value or a fault, and every earlier poll reports "not yet" and
    /// wakes the handle. (One whose pending step never wakes would park the
    /// bridge forever; the bridge's contracts leave such computations out,
    /// as the bridge itself has no timeout.)
    pub open spec fn wf(self) -> bool {
        &&& self.rem().len() >= 1
        &&& is_terminal(self.rem().last())
        &&& forall|i: int|
            0 <= i < self.rem().len() - 1 ==> ((#[trigger] self.rem()[i]) matches
                StepKind::Pending { wakes } && wakes)
    }

    /// The step that ends the computation.
    pub open spec fn terminal(self) -> StepKind<T> {
        self.rem().last()
    }

    /// How many polls report "not yet" before the computation ends; the
    /// bridge parks exactly once per such poll.
    pub open spec fn pending_count(self) -> int {
        self.rem().len() - 1
    }

    /// What driving the computation to completion produces: the terminal
    /// value, or the captured failure. Any correct poll-driven executor
    /// obtains exactly this.
    pub open spec fn outcome(self) -> Outcome<T> {
        match self.terminal() {
            StepKind::Ready(v) => Outcome::Success(v),
            StepKind::Fault(m) => Outcome::Failure(m),
            StepKind::Pending { .. } => arbitrary(),
        }
    }

    /// A computation from its poll results, next first.
    pub fn new(steps: Vec<StepKind<T>>) -> (s: Script<T>)
        ensures
            s.rem() == steps@,
    {
        Script { steps }
    }
}

} // verus!
