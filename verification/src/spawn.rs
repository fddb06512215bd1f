//! Task identity and the end-to-end blocking spawn: mint a fresh identity,
//! record its parent for trace correlation, emit the start and completion
//! trace events, install the identity as current for the duration of the
//! call, run the computation's task-local finalizers exactly once on
//! completion, and hand back the computation's outcome — re-raising a
//! captured failure is the caller's last step, outside this crate's scope.

use vstd::prelude::*;
use crate::bridge::block_on;
use crate::outcome::{Outcome, OutcomeSlot};
use crate::script::Script;
use crate::unit::UnitState;

verus! {

/// The identity a spawn reports as parent when no task is current on the
/// calling unit.
pub const NO_PARENT: u64 = 0;

/// Which of the two trace events per spawn this is.
#[derive(Clone, Copy, Debug, PartialEq, Eq)]
pub enum EventKind {
    /// Emitted when the spawn begins, before the computation is polled.
    Started,
    /// Emitted after the computation completed and its finalizers ran.
    Completed,
}

/// One structured trace event, carrying the spawned task's identity and the
/// identity of the task that was current when the spawn began.
#[derive(Clone, Copy, Debug, PartialEq, Eq)]
pub struct TraceEvent {
    /// Start or completion.
    pub kind: EventKind,
    /// The identity current at spawn time, or [`NO_PARENT`].
    pub parent: u64,
    /// The spawned task's own fresh identity.
    pub child: u64,
}

/// The start event a spawn with these identities emits.
pub open spec fn started_event(parent: u64, child: u64) -> TraceEvent {
    TraceEvent { kind: EventKind::Started, parent, child }
}

/// The completion event a spawn with these identities emits.
pub open spec fn completed_event(parent: u64, child: u64) -> TraceEvent {
    TraceEvent { kind: EventKind::Completed, parent, child }
}

/// The unit-local task bookkeeping the spawner works against: the identity
/// mint, the identity currently installed on the unit, the trace events
/// emitted so far, and which tasks have had their task-local finalizers run.
pub struct TaskRegistry {
    /// The next identity to mint; identities start at 1, since 0 is the
    /// no-parent sentinel.
    pub next_id: u64,
    /// The identity of the task currently running on this unit, if any.
    pub current: Option<u64>,
    /// Every trace event emitted on this unit, in order.
    pub events: Vec<TraceEvent>,
    /// The identities whose task-local finalizers have run, one entry per
    /// run, in order.
    pub finalized: Vec<u64>,
}

impl TaskRegistry {
    /// Identities are minted in order starting at 1, and the installed
    /// identity is always one that was minted.
    pub open spec fn wf(self) -> bool {
        &&& self.next_id >= 1
        &&& (self.current matches Some(id) ==> 1 <= id < self.next_id)
    }

    /// The identity a spawn started now would report as parent: the current
    /// one, or the sentinel.
    pub open spec fn parent_for_spawn(self) -> u64 {
        match self.current {
            Some(id) => id,
            None => NO_PARENT,
        }
    }

    /// The identity of the task currently associated with this unit, if
    /// any: the query code running inside a computation uses to discover
    /// its own identity.
    pub fn current_task(&self) -> (r: Option<u64>)
        ensures
            r == self.current,
    {
        self.current
    }

    /// A fresh registry: nothing minted, no task current, nothing emitted,
    /// nothing finalized.
    pub fn new() -> (reg: TaskRegistry)
        ensures
            reg.wf(),
            reg.next_id == 1,
            reg.current is None,
            reg.events@.len() == 0,
            reg.finalized@.len() == 0,
    {
        TaskRegistry { next_id: 1, current: None, events: Vec::new(), finalized: Vec::new() }
    }
}

/// What one spawn holds while its computation runs: the identities it traces
/// with, and the identity to restore when it ends.
#[derive(Clone, Copy, Debug)]
pub struct SpawnScope {
    /// The fresh identity minted for this spawn.
    pub child: u64,
    /// The identity that was current when the spawn began, or the sentinel.
    pub parent: u64,
    /// The exact prior installation, restored unconditionally when the
    /// spawn completes.
    pub prior: Option<u64>,
}

/// Whether a scope is one that [`begin_spawn`] could have handed out against
/// this registry: its identities were minted, and it is the scope whose
/// child is installed.
pub open spec fn scope_installed(scope: SpawnScope, reg: TaskRegistry) -> bool {
    &&& reg.current == Some(scope.child)
    &&& scope.child < reg.next_id
    &&& (scope.prior matches Some(id) ==> 1 <= id < reg.next_id)
    &&& scope.prior != Some(scope.child)
}

/// Begin one spawn: mint a fresh identity, note the parent, emit the start
/// trace event, and install the fresh identity as current so the computation
/// (and any spawn nested inside it) sees it.
pub fn begin_spawn(reg: &mut TaskRegistry) -> (scope: SpawnScope)
    requires
        old(reg).wf(),
        old(reg).next_id < u64::MAX,
    ensures
        final(reg).wf(),
        scope_installed(scope, *final(reg)),
        scope.child == old(reg).next_id,
        scope.parent == old(reg).parent_for_spawn(),
        scope.prior == old(reg).current,
        final(reg).next_id == old(reg).next_id + 1,
        final(reg).current == Some(scope.child),
        final(reg).events@ == old(reg).events@.push(started_event(scope.parent, scope.child)),
        final(reg).finalized@ == old(reg).finalized@,
{
    let child = reg.next_id;
    reg.next_id = reg.next_id + 1;
    let parent = match reg.current {
        Some(id) => id,
        None => NO_PARENT,
    };
    let prior = reg.current;
    reg.current = Some(child);
    reg.events.push(TraceEvent { kind: EventKind::Started, parent, child });
    SpawnScope { child, parent, prior }
}

/// Complete one spawn: run the computation's task-local finalizers (exactly
/// this once), emit the completion trace event, and restore the identity
/// that was current before the spawn — unconditionally, whatever the
/// computation's outcome was.
pub fn complete_spawn(reg: &mut TaskRegistry, scope: SpawnScope)
    requires
        old(reg).wf(),
        scope_installed(scope, *old(reg)),
    ensures
        final(reg).wf(),
        final(reg).next_id == old(reg).next_id,
        final(reg).current == scope.prior,
        final(reg).events@ == old(reg).events@.push(completed_event(scope.parent, scope.child)),
        final(reg).finalized@ == old(reg).finalized@.push(scope.child),
{
    reg.finalized.push(scope.child);
    reg.events.push(TraceEvent { kind: EventKind::Completed, parent: scope.parent, child: scope.child });
    reg.current = scope.prior;
}

/// Spawn a computation and block the calling unit on its result.
///
/// The whole bridge, end to end: a fresh identity is minted and installed as
/// current (so a nested spawn reports it as parent), the start event is
/// emitted, the computation is driven to completion by the blocking poll
/// loop — parking once per pending poll, never busy-waiting — its outcome is
/// written once into the stack slot, its finalizers run exactly once, the
/// completion event is emitted, the prior identity is restored, and the
/// outcome is read back out of the slot exactly once. A captured failure
/// comes back as [`Outcome::Failure`] with its payload verbatim, on the same
/// terms as a success: finalizers, trace events and restoration do not
/// depend on which it is.
pub fn spawn_task<T>(reg: &mut TaskRegistry, unit: &mut UnitState, script: &mut Script<T>) -> (r:
    Outcome<T>)
    requires
        old(reg).wf(),
        old(reg).next_id < u64::MAX,
        old(script).wf(),
        old(unit).parks + old(script).pending_count() <= u64::MAX,
    ensures
        final(reg).wf(),
        r == old(script).outcome(),
        final(script).rem().len() == 0,
        final(reg).next_id == old(reg).next_id + 1,
        final(reg).current == old(reg).current,
        final(reg).events@ == old(reg).events@.push(
            started_event(old(reg).parent_for_spawn(), old(reg).next_id),
        ).push(completed_event(old(reg).parent_for_spawn(), old(reg).next_id)),
        final(reg).finalized@ == old(reg).finalized@.push(old(reg).next_id),
        final(unit).parks == old(unit).parks + old(script).pending_count(),
{
    let scope = begin_spawn(reg);
    let mut slot = OutcomeSlot::empty();
    let out = block_on(script, unit);
    slot.store(out);
    complete_spawn(reg, scope);
    slot.take()
}

} // verus!
