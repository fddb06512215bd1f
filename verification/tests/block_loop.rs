//! The blocking poll loop on its own, and identity minting across spawns.

use blocking_bridge::bridge::block_on;
use blocking_bridge::outcome::Outcome;
use blocking_bridge::script::{Script, StepKind};
use blocking_bridge::spawn::{spawn_task, TaskRegistry};
use blocking_bridge::unit::UnitState;

#[test]
fn block_on_drives_to_completion() {
    let mut unit = UnitState::new();
    let mut script = Script::new(vec![
        StepKind::Pending { wakes: true },
        StepKind::Pending { wakes: true },
        StepKind::Ready(3u32),
    ]);
    let r = block_on(&mut script, &mut unit);
    match r {
        Outcome::Success(v) => assert_eq!(v, 3),
        Outcome::Failure(m) => panic!("unexpected failure: {}", m),
    }
    assert_eq!(unit.parks, 2);
    assert_eq!(script.steps.len(), 0);
}

#[test]
fn block_on_captures_fault_after_pending() {
    let mut unit = UnitState::new();
    let mut script: Script<u32> = Script::new(vec![
        StepKind::Pending { wakes: true },
        StepKind::Fault("late boom".to_string()),
    ]);
    let r = block_on(&mut script, &mut unit);
    match r {
        Outcome::Success(_) => panic!("expected a captured failure"),
        Outcome::Failure(m) => assert_eq!(m, "late boom"),
    }
    assert_eq!(unit.parks, 1);
}

#[test]
fn sibling_spawns_get_fresh_identities_and_same_parent() {
    let mut reg = TaskRegistry::new();
    let mut unit = UnitState::new();

    let mut first = Script::new(vec![StepKind::Ready(1u8)]);
    let mut second = Script::new(vec![StepKind::Ready(2u8)]);
    spawn_task(&mut reg, &mut unit, &mut first);
    spawn_task(&mut reg, &mut unit, &mut second);

    assert_eq!(reg.events.len(), 4);
    // two distinct identities, minted in order, both top-level
    assert_eq!(reg.events[0].child, 1);
    assert_eq!(reg.events[0].parent, 0);
    assert_eq!(reg.events[2].child, 2);
    assert_eq!(reg.events[2].parent, 0);
    assert_eq!(reg.finalized, vec![1u64, 2u64]);
    assert_eq!(reg.next_id, 3);
}
