//! A blocking bridge for an asynchronous task system: run a suspendable
//! computation to completion on the calling execution unit and hand its
//! result back, as if a synchronous function had been called.
//!
//! The crate models the bridge's moving parts as plain data so that every
//! decision the bridge makes is stated and proved:
//!
//! - [`outcome`]: the single-assignment slot that carries the computation's
//!   final value or its captured failure.
//! - [`script`]: a computation as the bridge sees it — the sequence of poll
//!   results it will report.
//! - [`unit`]: the execution unit's park/unpark state: at most one pending
//!   notification, consumed by the next park.
//! - [`handle`]: the reference-counted wakeup handle shared across units.
//! - [`bridge`]: the interrupt-catching poll step and the blocking poll loop.
//! - [`spawn`]: task identities, trace events, finalizers, and the
//!   end-to-end blocking spawn.
//! - [`laws`]: the crate-wide guarantees, stated and proved once.

pub mod outcome;
pub mod script;
pub mod unit;
pub mod handle;
pub mod bridge;
pub mod spawn;
pub mod laws;
