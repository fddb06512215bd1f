//! The computation's final result, and the single-assignment slot it is
//! carried in for the duration of one blocking call.

use vstd::prelude::*;

verus! {

/// What a computation ends with: its value, or the payload of an abrupt
/// internal failure captured during a poll.
pub enum Outcome<T> {
    /// The computation ran to completion and produced this value.
    Success(T),
    /// A poll step failed abruptly; the payload is kept verbatim so the
    /// caller can re-raise it unchanged.
    Failure(String),
}

impl<T> Outcome<T> {
    /// True when the outcome carries a value rather than a captured failure.
    pub fn is_success(&self) -> (r: bool)
        ensures
            r == (self is Success),
    {
        match self {
            Outcome::Success(_) => true,
            Outcome::Failure(_) => false,
        }
    }
}

/// A slot written exactly once with the computation's outcome, and read
/// exactly once after the poll loop reports completion. It lives on the
/// blocking call's own stack and never escapes it.
pub struct OutcomeSlot<T> {
    /// The stored outcome; empty until the computation completes.
    pub value: Option<Outcome<T>>,
}

impl<T> OutcomeSlot<T> {
    /// A fresh, empty slot.
    pub fn empty() -> (s: OutcomeSlot<T>)
        ensures
            s.value is None,
    {
        OutcomeSlot { value: None }
    }

    /// Store the outcome. The slot is single-assignment: it must still be
    /// empty.
    pub fn store(&mut self, outcome: Outcome<T>)
        requires
            old(self).value is None,
        ensures
            final(self).value == Some(outcome),
    {
        self.value = Some(outcome);
    }

    /// Take the outcome out. The slot must have been written, and is empty
    /// afterwards, so a second read cannot happen.
    pub fn take(&mut self) -> (r: Outcome<T>)
        requires
            old(self).value is Some,
        ensures
            Some(r) == old(self).value,
            final(self).value is None,
    {
        let mut v: Option<Outcome<T>> = None;
        core::mem::swap(&mut self.value, &mut v);
        match v {
            Some(out) => out,
            None => unreached(),
        }
    }
}

} // verus!
