//! The crate-wide guarantees, stated once over the spec model that the
//! executable functions' contracts speak of, and proved here.

use vstd::prelude::*;
use crate::handle::{
    HandleOp, clone_count, give_up_count, ops_valid, refs_after, release_count,
};
use crate::outcome::Outcome;
use crate::script::{Script, StepKind};
use crate::spawn::TaskRegistry;
use crate::unit::{UnitState, park_would_suspend, unparked};

verus! {

/// A computation that completes without failure comes back as exactly the
/// value its terminal step produces, whatever pending polls precede it:
/// together with [`crate::bridge::block_on`]'s contract (`r == outcome()`),
/// the blocking operation returns the value the computation would produce.
pub proof fn law_success_value<T>(s: Script<T>, v: T)
    requires
        s.wf(),
        s.terminal() == StepKind::Ready(v),
    ensures
        s.outcome() == Outcome::Success(v),
{
}

/// A computation whose poll fails abruptly comes back as a captured failure
/// carrying the payload verbatim: together with
/// [`crate::spawn::spawn_task`]'s contract, the blocking operation raises an
/// equivalent failure — and its finalizer and trace clauses hold
/// unconditionally, so the failing path finalizes and traces like the
/// successful one.
pub proof fn law_failure_propagates<T>(s: Script<T>, m: String)
    requires
        s.wf(),
        s.terminal() == StepKind::<T>::Fault(m),
    ensures
        s.outcome() == Outcome::<T>::Failure(m),
{
}

/// The outcome of a computation does not depend on how often it was polled
/// before completing: two computations with the same terminal step produce
/// the same outcome, so every correct poll-driven executor — however it
/// schedules the polls — obtains the same value.
pub proof fn law_outcome_ignores_scheduling<T>(a: Script<T>, b: Script<T>)
    requires
        a.wf(),
        b.wf(),
        a.terminal() == b.terminal(),
    ensures
        a.outcome() == b.outcome(),
{
}

/// Task-local finalizers run exactly once per spawned computation, on every
/// completion path: [`crate::spawn::spawn_task`] ensures, for success and
/// captured failure alike, that the finalization record gains exactly one
/// entry for the spawned identity, and no entry for any other.
pub proof fn law_finalizer_runs_exactly_once(before: Seq<u64>, after: Seq<u64>, child: u64)
    requires
        after == before.push(child),
    ensures
        after.to_multiset().count(child) == before.to_multiset().count(child) + 1,
        forall|other: u64|
            other != child ==> after.to_multiset().count(other) == before.to_multiset().count(
                other,
            ),
{
    broadcast use vstd::seq_lib::group_to_multiset_ensures;

    assert(after.to_multiset() =~= before.to_multiset().insert(child));
}

/// A wake issued before the unit parks is not lost: after an unpark, a park
/// does not suspend — it consumes the pending notification and returns at
/// once, so the loop cannot park indefinitely when wake-before-park occurs.
pub proof fn law_wake_before_park_not_lost(u: UnitState)
    ensures
        !park_would_suspend(unparked(u)),
{
}

/// Wakes coalesce: several unparks before one park leave exactly one pending
/// notification, the same as a single unpark. Spurious extra wakes are
/// harmless — the loop simply polls again.
pub proof fn law_wakes_coalesce(u: UnitState)
    ensures
        unparked(unparked(u)) == unparked(u),
{
}

/// The share count after a history of handle operations is the initial one
/// share, plus one per clone, minus one per consuming wake or drop.
proof fn lemma_refs_counts(ops: Seq<HandleOp>)
    ensures
        refs_after(ops) == 1 + clone_count(ops) - give_up_count(ops),
    decreases ops.len(),
{
    if ops.len() > 0 {
        lemma_refs_counts(ops.drop_last());
    }
}

/// A history all of whose states keep at least one share never releases the
/// backing resource.
proof fn lemma_no_release_while_shared(ops: Seq<HandleOp>)
    requires
        forall|i: int| 0 < i <= ops.len() ==> refs_after(#[trigger] ops.subrange(0, i)) >= 1,
    ensures
        release_count(ops) == 0,
    decreases ops.len(),
{
    if ops.len() > 0 {
        assert forall|i: int| 0 < i <= ops.len() - 1 implies refs_after(
            #[trigger] ops.drop_last().subrange(0, i),
        ) >= 1 by {
            assert(ops.drop_last().subrange(0, i) =~= ops.subrange(0, i));
        }
        lemma_no_release_while_shared(ops.drop_last());
        assert(ops.subrange(0, ops.len() as int) =~= ops);
    }
}

/// Wakeup-handle ownership is balanced, and the backing resource is released
/// exactly once, never early, never twice: in any valid history (each
/// operation acts on a handle that still holds a share) that ends with the
/// count at zero, the operations that give up a share — consuming wakes and
/// drops — number exactly one more than the clones (one drop per clone, plus
/// one for the original), and the release happens exactly once, at the end.
pub proof fn law_handle_balance(ops: Seq<HandleOp>)
    requires
        ops_valid(ops),
        refs_after(ops) == 0,
    ensures
        give_up_count(ops) == clone_count(ops) + 1,
        release_count(ops) == 1,
{
    lemma_refs_counts(ops);
    assert(ops.len() > 0);
    assert forall|i: int| 0 < i <= ops.len() - 1 implies refs_after(
        #[trigger] ops.drop_last().subrange(0, i),
    ) >= 1 by {
        assert(ops.drop_last().subrange(0, i) =~= ops.subrange(0, i));
    }
    lemma_no_release_while_shared(ops.drop_last());
    assert(release_count(ops) == release_count(ops.drop_last()) + 1);
}

/// A spawn begun while another task is current reports that task as its
/// parent: with [`crate::spawn::begin_spawn`] installing the child identity
/// as current, a nested spawn's start event carries the outer identity in
/// its parent field.
pub proof fn law_nested_spawn_parent(reg: TaskRegistry, child: u64)
    requires
        reg.current == Some(child),
    ensures
        reg.parent_for_spawn() == child,
{
}

} // verus!
