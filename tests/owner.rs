use sovereign::{AccessError, Lease, Owner};

#[test]
fn owner_kill_then_access_fails() {
    let (owner, lease): (Owner<String>, Lease<String>) = Owner::new(String::from("state"));
    assert_eq!(lease.access("read", |s| s.len()), Ok(5));
    assert!(owner.is_alive());
    assert!(owner.kill());
    assert!(!owner.is_alive());
    assert_eq!(lease.access("read", |s| s.len()), Err(AccessError::ResourceNotFound));
    assert!(!owner.kill());
}

#[test]
fn owner_issues_leases_to_same_resource() {
    let (owner, first): (Owner<Vec<u8>>, Lease<Vec<u8>>) = Owner::new(vec![1, 2]);
    let second = owner.issue_lease();
    assert_eq!(second.access_mut("push", |v| v.push(3)), Ok(()));
    assert_eq!(first.access("read", |v| v.clone()), Ok(vec![1, 2, 3]));
}

#[test]
fn dropped_owner_leaves_leases_unresolved() {
    let (owner, lease): (Owner<u8>, Lease<u8>) = Owner::new(4);
    drop(owner);
    assert_eq!(lease.access("read", |v| *v), Err(AccessError::RegistryDropped));
    assert!(!lease.is_alive());
}
