use std::sync::Arc;

use parking_lot::lock_api::RwLock;
use sovereign::{
    enter_checked, enter_checked_mut, insert_into, settle_access, settle_access_mut, settle_kill,
    settle_registration, terminate_in, AccessError, PanicDiscipline, Registry, ResourceStatus, SovereignCell, DEAD_KEY,
};

fn cell(value: u32) -> Arc<SovereignCell<u32>> {
    Arc::new(SovereignCell { instance: RwLock::new(value), status: ResourceStatus::new() })
}

fn value_of(found: Option<Arc<SovereignCell<u32>>>) -> Option<u32> {
    found.map(|c| *c.instance.read())
}

#[test]
fn registry_insert_then_lookup() {
    let mut registry: Registry<u32> = Registry::new();
    assert!(registry.has_room());
    let a = registry.insert(cell(1));
    let b = registry.insert(cell(2));
    assert_ne!(a, b);
    assert_eq!(value_of(registry.lookup(a)), Some(1));
    assert_eq!(value_of(registry.lookup(b)), Some(2));
}

#[test]
fn registry_remove_retires_key() {
    let mut registry: Registry<u32> = Registry::new();
    let a = registry.insert(cell(1));
    assert_eq!(value_of(registry.remove(a)), Some(1));
    assert_eq!(value_of(registry.lookup(a)), None);
    assert!(registry.remove(a).is_none());
    let b = registry.insert(cell(2));
    assert_ne!(a, b);
    assert_eq!(value_of(registry.lookup(a)), None);
    assert_eq!(value_of(registry.lookup(b)), Some(2));
}

#[test]
fn registry_unknown_keys_find_nothing() {
    let mut registry: Registry<u32> = Registry::new();
    let a = registry.insert(cell(1));
    assert_eq!(value_of(registry.lookup(0)), None);
    assert_eq!(value_of(registry.lookup(a ^ (1u64 << 32))), None);
    assert!(registry.remove(a ^ (1u64 << 32)).is_none());
    assert_eq!(value_of(registry.lookup(a)), Some(1));
}

#[test]
fn registry_status_starts_clear() {
    let status = ResourceStatus::new();
    assert!(!status.is_killed());
    assert_eq!(status.visitors(), 0);
    {
        let _visit = status.check_in();
        assert_eq!(status.visitors(), 1);
    }
    assert_eq!(status.visitors(), 0);
    status.mark_killed();
    assert!(status.is_killed());
}

#[test]
fn insert_into_hands_out_fresh_key() {
    let mut registry: Registry<u32> = Registry::new();
    let a = insert_into(&mut registry, cell(3)).unwrap();
    let b = insert_into(&mut registry, cell(4)).unwrap();
    assert_ne!(a, b);
    assert_eq!(value_of(registry.lookup(b)), Some(4));
}

#[test]
fn terminate_in_reports_visitors_and_kills() {
    let mut registry: Registry<u32> = Registry::new();
    let c = cell(5);
    let a = registry.insert(Arc::clone(&c));
    let visit = c.status.check_in();
    assert_eq!(terminate_in(&mut registry, a), Some(1));
    assert!(c.status.is_killed());
    drop(visit);
    assert_eq!(terminate_in(&mut registry, a), None);
    assert_eq!(value_of(registry.lookup(a)), None);
}

#[test]
fn settle_functions_map_outcomes() {
    assert_eq!(settle_registration::<PanicDiscipline>(Some(77)), 77);
    assert!(settle_kill::<PanicDiscipline>(Some(0)));
    assert!(!settle_kill::<PanicDiscipline>(None));
    assert_ne!(DEAD_KEY, 77);
}

#[test]
fn settle_access_maps_lookup_result() {
    let none: Option<Arc<SovereignCell<u32>>> = None;
    assert_eq!(
        settle_access::<u32, PanicDiscipline, _, _>(none, "read", |v| *v),
        Err(AccessError::ResourceNotFound)
    );
    assert_eq!(settle_access::<u32, PanicDiscipline, _, _>(Some(cell(9)), "read", |v| *v + 1), Ok(10));
    let c = cell(1);
    assert_eq!(
        settle_access_mut::<u32, PanicDiscipline, _, _>(Some(Arc::clone(&c)), "bump", |v| {
            *v += 1;
            *v
        }),
        Ok(2)
    );
    assert_eq!(c.status.visitors(), 0);
}

#[test]
fn enter_checked_runs_callback_on_live_cell() {
    let c = cell(20);
    assert_eq!(
        enter_checked::<u32, PanicDiscipline, _, _>(&c, false, "read", |v| *v * 2),
        Ok(40)
    );
    assert_eq!(
        enter_checked_mut::<u32, PanicDiscipline, _, _>(&c, false, "write", |v| {
            *v = 21;
            *v
        }),
        Ok(21)
    );
    assert_eq!(value_of(Some(c)), Some(21));
}

#[test]
fn registry_counts_issued_keys() {
    let mut registry: Registry<u32> = Registry::new();
    let a = insert_into(&mut registry, cell(1)).unwrap();
    assert_eq!(terminate_in(&mut registry, a), Some(0));
    let b = insert_into(&mut registry, cell(2)).unwrap();
    assert_ne!(a, b);
    assert_eq!(value_of(registry.lookup(b)), Some(2));
}
