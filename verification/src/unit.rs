//! The calling execution unit's suspend/resume state. The underlying
//! park/unpark primitive keeps at most one pending notification: an unpark
//! delivered before the matching park is not lost but makes that park return
//! immediately, and several unparks before one park collapse into one
//! notification.

use vstd::prelude::*;

verus! {

/// The park/unpark state of one execution unit.
pub struct UnitState {
    /// Whether an unpark notification is pending. At most one is kept;
    /// the next park consumes it.
    pub token: bool,
    /// How many parks have completed on this unit (a probe for callers and
    /// tests; the bridge itself never reads it).
    pub parks: u64,
}

/// The unit after an unpark: a notification is pending, whatever was pending
/// before. This is the whole effect of a wake on the unit.
pub open spec fn unparked(u: UnitState) -> UnitState {
    UnitState { token: true, parks: u.parks }
}

/// Whether a park on this unit would suspend: it does exactly when no
/// notification is pending.
pub open spec fn park_would_suspend(u: UnitState) -> bool {
    !u.token
}

impl UnitState {
    /// A fresh unit: no pending notification, no completed parks.
    pub fn new() -> (u: UnitState)
        ensures
            u.token == false,
            u.parks == 0,
    {
        UnitState { token: false, parks: 0 }
    }

    /// Deliver an unpark notification to this unit. Idempotent: notifications
    /// coalesce into at most one pending token.
    pub fn unpark(&mut self)
        ensures
            *final(self) == unparked(*old(self)),
    {
        self.token = true;
    }

    /// Park this unit: block until a notification is pending, then consume
    /// it. The model requires the notification to be pending already — a park
    /// with none pending suspends until some other unit delivers one, and a
    /// computation that never does leaves the unit parked forever; callers
    /// rule that out.
    pub fn park(&mut self)
        requires
            !park_would_suspend(*old(self)),
            old(self).parks < u64::MAX,
        ensures
            final(self).token == false,
            final(self).parks == old(self).parks + 1,
    {
        self.token = false;
        self.parks = self.parks + 1;
    }
}

} // verus!
