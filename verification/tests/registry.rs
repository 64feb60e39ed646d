use schedule_registry::label::{InternedLabelRegistry, UntypedScheduleLabel};
use schedule_registry::registry::{ScheduleRegistry, SystemId, TypedScheduleRegistry};

fn sorted_handle_values(plan: &[SystemId]) -> Vec<u64> {
    let mut values: Vec<u64> = plan.iter().map(|s| s.id()).collect();
    values.sort();
    values
}

#[test]
fn typed_insert_is_idempotent() {
    let mut registry = TypedScheduleRegistry::new();
    registry.insert(SystemId::new(7));
    registry.insert(SystemId::new(7));
    assert_eq!(registry.len(), 1);
    assert!(registry.contains(&SystemId::new(7)));
}

#[test]
fn typed_distinct_handles_are_counted() {
    let mut registry = TypedScheduleRegistry::new();
    registry.insert(SystemId::new(1));
    registry.insert(SystemId::new(2));
    registry.insert(SystemId::new(3));
    assert_eq!(registry.len(), 3);
}

#[test]
fn typed_replay_hands_each_handle_out_once() {
    let mut registry = TypedScheduleRegistry::new();
    registry.insert(SystemId::new(5));
    registry.insert(SystemId::new(9));
    registry.insert(SystemId::new(5));
    registry.insert(SystemId::new(2));
    let plan = registry.replay_handles();
    assert_eq!(plan.len(), 3);
    assert_eq!(sorted_handle_values(&plan), vec![2, 5, 9]);
}

#[test]
fn typed_empty_registry_replays_nothing() {
    let registry = TypedScheduleRegistry::new();
    assert_eq!(registry.len(), 0);
    assert!(registry.replay_handles().is_empty());
    assert!(!registry.contains(&SystemId::new(0)));
}

#[test]
fn untyped_insert_then_get_contains_the_handle() {
    let mut registry = ScheduleRegistry::new();
    let update = UntypedScheduleLabel::new(40);
    registry.insert(&update, SystemId::new(11));
    let systems = registry.get(&update);
    assert!(systems.contains(&11));
    assert_eq!(systems.len(), 1);
}

#[test]
fn untyped_duplicate_insert_is_absorbed() {
    let mut registry = ScheduleRegistry::new();
    let update = UntypedScheduleLabel::new(40);
    registry.insert(&update, SystemId::new(11));
    registry.insert(&update, SystemId::new(11));
    assert_eq!(registry.get(&update).len(), 1);
}

#[test]
fn untyped_missing_identity_is_absent() {
    let mut registry = ScheduleRegistry::new();
    let startup = UntypedScheduleLabel::new(1);
    let update = UntypedScheduleLabel::new(2);
    assert!(registry.try_get(&update).is_none());
    registry.insert(&startup, SystemId::new(3));
    assert!(registry.try_get(&update).is_none());
    assert!(!registry.contains_label(&update));
    assert!(registry.try_get(&startup).is_some());
}

#[test]
fn untyped_identities_are_isolated() {
    let mut registry = ScheduleRegistry::new();
    let startup = UntypedScheduleLabel::new(1);
    let update = UntypedScheduleLabel::new(2);
    registry.insert(&startup, SystemId::new(10));
    registry.insert(&update, SystemId::new(20));
    registry.insert(&update, SystemId::new(21));
    let startup_systems = registry.get(&startup);
    assert_eq!(startup_systems.len(), 1);
    assert!(startup_systems.contains(&10));
    assert!(!startup_systems.contains(&20));
    let update_systems = registry.get(&update);
    assert_eq!(update_systems.len(), 2);
    assert!(update_systems.contains(&20));
    assert!(update_systems.contains(&21));
    assert!(!update_systems.contains(&10));
    assert_eq!(registry.len(), 2);
}

#[test]
fn untyped_replay_covers_one_identity_only() {
    let mut registry = ScheduleRegistry::new();
    let startup = UntypedScheduleLabel::new(1);
    let update = UntypedScheduleLabel::new(2);
    registry.insert(&update, SystemId::new(31));
    registry.insert(&update, SystemId::new(30));
    registry.insert(&update, SystemId::new(31));
    registry.insert(&startup, SystemId::new(99));
    let plan = registry.replay_handles(&update);
    assert_eq!(plan.len(), 2);
    assert_eq!(sorted_handle_values(&plan), vec![30, 31]);
    let missing = UntypedScheduleLabel::new(3);
    assert!(registry.replay_handles(&missing).is_empty());
}

#[test]
fn interning_is_stable_and_injective() {
    let mut labels = InternedLabelRegistry::new();
    let a = UntypedScheduleLabel::new(100);
    let b = UntypedScheduleLabel::new(200);
    assert!(labels.lookup(&a).is_none());
    let la = labels.intern(&a);
    let lb = labels.intern(&b);
    assert_eq!(labels.intern(&a), la);
    assert_eq!(labels.lookup(&a), Some(la));
    assert_eq!(labels.lookup(&b), Some(lb));
    assert_ne!(la, lb);
    assert_eq!(labels.len(), 2);
}

#[test]
fn labels_compare_by_identity_value() {
    let a = UntypedScheduleLabel::new(8);
    let same = UntypedScheduleLabel::new(8);
    let other = UntypedScheduleLabel::new(9);
    assert_eq!(a, same);
    assert_ne!(a, other);
    assert_eq!(a.id(), 8);
    assert_eq!(SystemId::new(3).id(), 3);
}

#[test]
fn default_registries_start_empty() {
    let typed = TypedScheduleRegistry::default();
    assert_eq!(typed.len(), 0);
    let untyped = ScheduleRegistry::default();
    assert_eq!(untyped.len(), 0);
    let labels = InternedLabelRegistry::default();
    assert_eq!(labels.len(), 0);
}

#[test]
fn demo_registers_and_finds_one_handle() {
    assert_eq!(schedule_registry::registry::test(), 1);
}
