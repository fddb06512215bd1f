//! The wakeup handle: a cloneable capability whose wake action unparks one
//! execution unit. All clones share one backing resource; the shared state is
//! a reference count, and the resource is released exactly when the count
//! falls to zero.
//!
//! [`HandleState`] is the shared state behind the original handle and all its
//! clones; the four operations reachable through the wakeup-capability
//! interface (clone, consuming wake, wake-by-reference, drop) act on it.

use vstd::prelude::*;
use crate::unit::{UnitState, unparked};

verus! {

/// The shared state backing one wakeup handle and all its clones.
pub struct HandleState {
    /// How many handles (the original plus clones) currently share the
    /// backing resource.
    pub refs: u64,
    /// Whether the backing resource has been released. It is released
    /// exactly when the count falls to zero, and only once.
    pub released: bool,
}

/// A handle that can still be used: at least one share exists and the
/// backing resource has not been released.
pub open spec fn live(h: HandleState) -> bool {
    h.refs >= 1 && !h.released
}

impl HandleState {
    /// The shared state of a freshly constructed handle: one share, resource
    /// held.
    pub fn new() -> (h: HandleState)
        ensures
            h.refs == 1,
            !h.released,
    {
        HandleState { refs: 1, released: false }
    }

    /// Clone a handle: one more share of the backing resource.
    pub fn clone_ref(&mut self)
        requires
            live(*old(self)),
            old(self).refs < u64::MAX,
        ensures
            final(self).refs == old(self).refs + 1,
            !final(self).released,
    {
        self.refs = self.refs + 1;
    }

    /// Consuming wake: unpark the referenced unit, then give up this
    /// handle's share. The resource is released exactly when this was the
    /// last share.
    pub fn wake(&mut self, unit: &mut UnitState)
        requires
            live(*old(self)),
        ensures
            *final(unit) == unparked(*old(unit)),
            final(self).refs == old(self).refs - 1,
            final(self).released == (old(self).refs == 1),
    {
        unit.unpark();
        self.refs = self.refs - 1;
        if self.refs == 0 {
            self.released = true;
        }
    }

    /// Wake without consuming: unpark the referenced unit and keep this
    /// handle's share, so the holder may wake again later.
    pub fn wake_by_ref(&mut self, unit: &mut UnitState)
        requires
            live(*old(self)),
        ensures
            *final(unit) == unparked(*old(unit)),
            *final(self) == *old(self),
    {
        unit.unpark();
    }

    /// Drop a handle: give up this handle's share. The resource is released
    /// exactly when this was the last share.
    pub fn drop_ref(&mut self)
        requires
            live(*old(self)),
        ensures
            final(self).refs == old(self).refs - 1,
            final(self).released == (old(self).refs == 1),
    {
        self.refs = self.refs - 1;
        if self.refs == 0 {
            self.released = true;
        }
    }
}

/// One operation on a wakeup handle, as the ownership accounting sees it.
#[derive(Clone, Copy, Debug)]
pub enum HandleOp {
    /// Clone: one more share.
    Clone,
    /// Consuming wake: unpark, then give up one share.
    Wake,
    /// Wake by reference: unpark, shares unchanged.
    WakeByRef,
    /// Drop: give up one share.
    Drop,
}

/// What one operation does to the share count.
pub open spec fn op_delta(op: HandleOp) -> int {
    match op {
        HandleOp::Clone => 1,
        HandleOp::Wake => -1,
        HandleOp::WakeByRef => 0,
        HandleOp::Drop => -1,
    }
}

/// The share count after a fresh handle (one share) has seen these
/// operations, in order.
pub open spec fn refs_after(ops: Seq<HandleOp>) -> int
    decreases ops.len(),
{
    if ops.len() == 0 {
        1
    } else {
        refs_after(ops.drop_last()) + op_delta(ops.last())
    }
}

/// A history in which every operation acts on a handle that still exists:
/// before each operation at least one share is held.
pub open spec fn ops_valid(ops: Seq<HandleOp>) -> bool {
    forall|i: int| 0 <= i < ops.len() ==> refs_after(#[trigger] ops.subrange(0, i)) >= 1
}

/// How many clone operations the history holds.
pub open spec fn clone_count(ops: Seq<HandleOp>) -> int
    decreases ops.len(),
{
    if ops.len() == 0 {
        0
    } else {
        clone_count(ops.drop_last()) + if ops.last() is Clone { 1int } else { 0 }
    }
}

/// How many operations of the history give up a share (consuming wakes and
/// drops together).
pub open spec fn give_up_count(ops: Seq<HandleOp>) -> int
    decreases ops.len(),
{
    if ops.len() == 0 {
        0
    } else {
        give_up_count(ops.drop_last()) + if ops.last() is Wake || ops.last() is Drop {
            1int
        } else {
            0
        }
    }
}

/// How many times the history releases the backing resource: once after each
/// operation that leaves the share count at zero.
pub open spec fn release_count(ops: Seq<HandleOp>) -> int
    decreases ops.len(),
{
    if ops.len() == 0 {
        0
    } else {
        release_count(ops.drop_last()) + if refs_after(ops) == 0 {
            1int
        } else {
            0
        }
    }
}

/// Run a history of handle operations against a live handle, waking this
/// unit. The share count afterwards is exactly what the ownership accounting
/// predicts, and the resource is released exactly when the count reached
/// zero — the executable operations and the accounting model agree.
pub fn run_ops(h: &mut HandleState, unit: &mut UnitState, ops: &Vec<HandleOp>)
    requires
        old(h).refs == 1,
        !old(h).released,
        ops_valid(ops@),
        forall|i: int| 0 <= i <= ops@.len() ==> refs_after(#[trigger] ops@.subrange(0, i)) < u64::MAX,
    ensures
        final(h).refs == refs_after(ops@),
        final(h).released == (refs_after(ops@) == 0),
        final(unit).parks == old(unit).parks,
{
    let n = ops.len();
    let mut i: usize = 0;
    proof {
        assert(ops@.subrange(0, 0) =~= Seq::<HandleOp>::empty());
    }
    while i < n
        invariant
            i <= n,
            n == ops@.len(),
            ops_valid(ops@),
            forall|k: int| 0 <= k <= ops@.len() ==> refs_after(#[trigger] ops@.subrange(0, k)) < u64::MAX,
            h.refs == refs_after(ops@.subrange(0, i as int)),
            h.released == (refs_after(ops@.subrange(0, i as int)) == 0),
            unit.parks == old(unit).parks,
        decreases n - i,
    {
        proof {
            assert(ops@.subrange(0, i + 1).drop_last() =~= ops@.subrange(0, i as int));
            assert(ops@.subrange(0, i + 1).last() == ops@[i as int]);
        }
        match ops[i] {
            HandleOp::Clone => h.clone_ref(),
            HandleOp::Wake => h.wake(unit),
            HandleOp::WakeByRef => h.wake_by_ref(unit),
            HandleOp::Drop => h.drop_ref(),
        }
        i = i + 1;
    }
    proof {
        assert(ops@.subrange(0, ops@.len() as int) =~= ops@);
    }
}

} // verus!
