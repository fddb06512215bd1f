//! The heart of the blocking bridge: one interrupt-catching poll step, and
//! the loop that drives a computation to completion by polling and parking.
//!
//! The loop never busy-waits: after a poll that reports "not yet" it parks
//! the calling unit and polls again only once woken. A wake delivered during
//! the poll itself — before the park begins — is kept as the unit's pending
//! notification, so the following park returns at once instead of suspending.

use vstd::prelude::*;
use crate::handle::{HandleState, live};
use crate::outcome::Outcome;
use crate::script::{Script, StepKind};
use crate::unit::UnitState;

verus! {

/// What one poll of the wrapped computation reports to the loop: done (with
/// the outcome — a captured failure counts as done), or not yet.
pub enum Polled<T> {
    /// The computation ended with this outcome.
    Done(Outcome<T>),
    /// Not yet; the computation holds the wakeup handle and will wake it.
    NotYet,
}

/// One poll of the computation through the interrupt-catching wrapper: a
/// step that produces a value comes back as a success, a step that fails
/// abruptly comes back as a captured failure instead of unwinding through
/// the loop, and a pending step wakes the unit through the handle exactly
/// when the computation chooses to.
pub fn poll_catch<T>(script: &mut Script<T>, handle: &mut HandleState, unit: &mut UnitState) -> (p:
    Polled<T>)
    requires
        old(script).rem().len() >= 1,
        live(*old(handle)),
    ensures
        final(script).rem() == old(script).rem().drop_first(),
        *final(handle) == *old(handle),
        final(unit).parks == old(unit).parks,
        match old(script).rem()[0] {
            StepKind::Ready(v) => {
                &&& p == Polled::Done(Outcome::Success(v))
                &&& final(unit).token == old(unit).token
            },
            StepKind::Fault(m) => {
                &&& p == Polled::Done(Outcome::<T>::Failure(m))
                &&& final(unit).token == old(unit).token
            },
            StepKind::Pending { wakes } => {
                &&& p == Polled::NotYet::<T>
                &&& final(unit).token == (old(unit).token || wakes)
            },
        },
{
    let step = script.steps.remove(0);
    proof {
        assert(script.rem() =~= old(script).rem().drop_first());
    }
    match step {
        StepKind::Ready(v) => Polled::Done(Outcome::Success(v)),
        StepKind::Fault(m) => Polled::Done(Outcome::Failure(m)),
        StepKind::Pending { wakes } => {
            if wakes {
                handle.wake_by_ref(unit);
            }
            Polled::NotYet
        },
    }
}

/// Drive a computation to completion on the calling unit: poll, park while
/// not ready, and hand back the outcome the computation ends with. One
/// wakeup handle is constructed for the whole call and its share is given
/// up before returning. The loop parks exactly once per pending poll, no
/// park outlasts the wake that matches it, and the returned outcome is
/// exactly what the computation produces.
pub fn block_on<T>(script: &mut Script<T>, unit: &mut UnitState) -> (r: Outcome<T>)
    requires
        old(script).wf(),
        old(unit).parks + old(script).pending_count() <= u64::MAX,
    ensures
        r == old(script).outcome(),
        final(script).rem().len() == 0,
        final(unit).parks == old(unit).parks + old(script).pending_count(),
        final(unit).token == (if old(script).pending_count() == 0 {
            old(unit).token
        } else {
            false
        }),
{
    let ghost whole = *old(script);
    let mut handle = HandleState::new();
    loop
        invariant
            whole == *old(script),
            script.rem().len() >= 1,
            script.rem().len() <= whole.rem().len(),
            script.rem() =~= whole.rem().subrange(
                whole.rem().len() - script.rem().len(),
                whole.rem().len() as int,
            ),
            whole.wf(),
            live(handle),
            unit.parks == old(unit).parks + (whole.rem().len() - script.rem().len()),
            old(unit).parks + whole.pending_count() <= u64::MAX,
            unit.token == (if script.rem().len() == whole.rem().len() {
                old(unit).token
            } else {
                false
            }),
        decreases script.rem().len(),
    {
        proof {
            let k = whole.rem().len() - script.rem().len();
            let e = whole.rem().len() as int;
            assert(script.rem() == whole.rem().subrange(k, e));
            assert(whole.rem().subrange(k, e)[0] == whole.rem()[k]);
            assert(script.rem()[0] == whole.rem()[k]);
            assert(whole.rem().subrange(k, e)[script.rem().len() - 1] == whole.rem()[e - 1]);
            assert(script.rem().last() == whole.rem().last());
        }
        match poll_catch(script, &mut handle, unit) {
            Polled::Done(out) => {
                proof {
                    let e = whole.rem().len() as int;
                    let k = e - 1 - script.rem().len();
                    if k < e - 1 {
                        assert(whole.rem()[k] matches StepKind::Pending { wakes } && wakes);
                        assert(false);
                    }
                    assert(k == e - 1);
                    assert(whole.terminal() == whole.rem()[k]);
                }
                handle.drop_ref();
                return out;
            },
            Polled::NotYet => {
                unit.park();
            },
        }
    }
}

} // verus!
