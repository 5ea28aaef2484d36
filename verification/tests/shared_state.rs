use cfg_adapter::AccessFault;
use cfg_adapter::SharedState;

#[test]
fn registry_starts_empty_and_grows_by_registration() {
    let mut shared: SharedState<u64> = SharedState::new();
    assert_eq!(shared.len(), 0);
    let first = shared.register(10);
    let second = shared.register(20);
    assert_eq!(first, 0);
    assert_eq!(second, 1);
    assert_eq!(shared.len(), 2);
    assert!(shared.is_occupied(first));
    assert!(shared.is_occupied(second));
}

#[test]
fn acquire_empties_the_slot_and_release_refills_it() {
    let mut shared: SharedState<u64> = SharedState::new();
    let handle = shared.register(7);
    assert_eq!(shared.try_acquire(handle), Ok(7));
    assert!(!shared.is_occupied(handle));
    shared.release(handle, 8);
    assert!(shared.is_occupied(handle));
    assert_eq!(shared.try_acquire(handle), Ok(8));
}

#[test]
fn second_acquire_faults_and_changes_nothing() {
    let mut shared: SharedState<u64> = SharedState::new();
    let handle = shared.register(7);
    let other = shared.register(9);
    assert_eq!(shared.try_acquire(handle), Ok(7));
    assert_eq!(shared.try_acquire(handle), Err(AccessFault));
    // the fault touches nothing: the empty slot stays empty, the other slot full
    assert!(!shared.is_occupied(handle));
    assert_eq!(shared.try_acquire(other), Ok(9));
}
