//! End-to-end scenarios of the blocking spawn.

use blocking_bridge::outcome::Outcome;
use blocking_bridge::script::{Script, StepKind};
use blocking_bridge::spawn::{begin_spawn, complete_spawn, spawn_task, EventKind, TaskRegistry};
use blocking_bridge::unit::UnitState;

#[test]
fn immediately_ready_returns_value_without_parking() {
    let mut reg = TaskRegistry::new();
    let mut unit = UnitState::new();
    let mut script = Script::new(vec![StepKind::Ready(42u64)]);

    let r = spawn_task(&mut reg, &mut unit, &mut script);

    match r {
        Outcome::Success(v) => assert_eq!(v, 42),
        Outcome::Failure(m) => panic!("unexpected failure: {}", m),
    }
    // zero park/wake cycles
    assert_eq!(unit.parks, 0);
    // exactly one start and one completion trace event
    assert_eq!(reg.events.len(), 2);
    assert_eq!(reg.events[0].kind, EventKind::Started);
    assert_eq!(reg.events[0].parent, 0);
    assert_eq!(reg.events[0].child, 1);
    assert_eq!(reg.events[1].kind, EventKind::Completed);
    assert_eq!(reg.events[1].parent, 0);
    assert_eq!(reg.events[1].child, 1);
}

#[test]
fn pending_once_parks_once_and_returns() {
    let mut reg = TaskRegistry::new();
    let mut unit = UnitState::new();
    let mut script = Script::new(vec![
        StepKind::Pending { wakes: true },
        StepKind::Ready("done".to_string()),
    ]);

    let r = spawn_task(&mut reg, &mut unit, &mut script);

    match r {
        Outcome::Success(v) => assert_eq!(v, "done"),
        Outcome::Failure(m) => panic!("unexpected failure: {}", m),
    }
    // parks exactly once
    assert_eq!(unit.parks, 1);
}

#[test]
fn fault_is_captured_finalized_and_traced() {
    let mut reg = TaskRegistry::new();
    let mut unit = UnitState::new();
    let mut script: Script<u64> = Script::new(vec![StepKind::Fault("boom".to_string())]);

    let r = spawn_task(&mut reg, &mut unit, &mut script);

    match r {
        Outcome::Success(_) => panic!("expected a captured failure"),
        Outcome::Failure(m) => assert_eq!(m, "boom"),
    }
    // finalizer still executed, exactly once
    assert_eq!(reg.finalized, vec![1u64]);
    // completion trace event still emitted
    assert_eq!(reg.events.len(), 2);
    assert_eq!(reg.events[1].kind, EventKind::Completed);
    assert_eq!(reg.events[1].child, 1);
    // the installed identity is restored on the failure path too
    assert!(reg.current.is_none());
}

#[test]
fn wake_before_park_is_not_lost() {
    // The computation wakes its handle synchronously during the first poll,
    // then reports ready on the second: the bridge consumes the pending
    // notification instead of parking indefinitely.
    let mut reg = TaskRegistry::new();
    let mut unit = UnitState::new();
    let mut script = Script::new(vec![
        StepKind::Pending { wakes: true },
        StepKind::Ready(5u64),
    ]);

    let r = spawn_task(&mut reg, &mut unit, &mut script);

    match r {
        Outcome::Success(v) => assert_eq!(v, 5),
        Outcome::Failure(m) => panic!("unexpected failure: {}", m),
    }
    assert_eq!(unit.parks, 1);
    // the notification was consumed by the park, not left dangling
    assert!(!unit.token);
}

#[test]
fn many_pending_polls_park_once_each() {
    let mut reg = TaskRegistry::new();
    let mut unit = UnitState::new();
    let mut steps = Vec::new();
    for _ in 0..10 {
        steps.push(StepKind::Pending { wakes: true });
    }
    steps.push(StepKind::Ready(99u64));
    let mut script = Script::new(steps);

    let r = spawn_task(&mut reg, &mut unit, &mut script);

    match r {
        Outcome::Success(v) => assert_eq!(v, 99),
        Outcome::Failure(m) => panic!("unexpected failure: {}", m),
    }
    assert_eq!(unit.parks, 10);
    // the whole script was consumed
    assert_eq!(script.steps.len(), 0);
}

#[test]
fn nested_spawn_reports_outer_identity_as_parent() {
    let mut reg = TaskRegistry::new();
    let mut unit = UnitState::new();

    // The outer computation begins; its identity is installed as current.
    assert_eq!(reg.current_task(), None);
    let outer = begin_spawn(&mut reg);
    assert_eq!(outer.child, 1);
    assert_eq!(outer.parent, 0);
    assert_eq!(reg.current_task(), Some(1));

    // While it runs, it spawns and blocks on a second computation.
    let mut inner_script = Script::new(vec![StepKind::Ready(7u64)]);
    let r = spawn_task(&mut reg, &mut unit, &mut inner_script);
    match r {
        Outcome::Success(v) => assert_eq!(v, 7),
        Outcome::Failure(m) => panic!("unexpected failure: {}", m),
    }

    // The outer computation completes.
    complete_spawn(&mut reg, outer);

    // The inner start event reports the outer identity as parent.
    assert_eq!(reg.events.len(), 4);
    assert_eq!(reg.events[0].kind, EventKind::Started);
    assert_eq!(reg.events[0].child, 1);
    assert_eq!(reg.events[1].kind, EventKind::Started);
    assert_eq!(reg.events[1].child, 2);
    assert_eq!(reg.events[1].parent, 1);
    assert_eq!(reg.events[2].kind, EventKind::Completed);
    assert_eq!(reg.events[2].child, 2);
    assert_eq!(reg.events[3].kind, EventKind::Completed);
    assert_eq!(reg.events[3].child, 1);
    // after the inner spawn, the outer identity was current again
    // (restored), and after the outer completes nothing is
    assert!(reg.current.is_none());
    // each task's finalizers ran exactly once, innermost first
    assert_eq!(reg.finalized, vec![2u64, 1u64]);
}
