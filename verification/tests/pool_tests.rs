use authcore::db::{acquire_handle, pool_error_status, PoolError, PoolGate};

#[test]
fn capacity_bounds_outstanding_handles() {
    let mut gate = PoolGate::new(2);
    let h1 = gate.acquire().unwrap();
    let h2 = gate.acquire().unwrap();
    assert_eq!(gate.outstanding, 2);
    assert_eq!(gate.acquire().unwrap_err(), PoolError::Exhausted);
    assert_eq!(gate.outstanding, 2);
    gate.release(h1);
    let h3 = gate.acquire().unwrap();
    assert_eq!(gate.outstanding, 2);
    gate.release(h2);
    gate.release(h3);
    assert_eq!(gate.outstanding, 0);
}

#[test]
fn zero_capacity_always_refuses() {
    let mut gate = PoolGate::new(0);
    assert_eq!(gate.acquire().unwrap_err(), PoolError::Exhausted);
}

#[test]
fn unregistered_pool_is_a_configuration_fault() {
    let mut registry: Option<PoolGate> = None;
    assert_eq!(acquire_handle(&mut registry).unwrap_err(), PoolError::Unconfigured);
}

#[test]
fn registered_pool_answers_as_its_gate() {
    let mut registry = Some(PoolGate::new(1));
    assert!(acquire_handle(&mut registry).is_ok());
    assert_eq!(acquire_handle(&mut registry).unwrap_err(), PoolError::Exhausted);
}

#[test]
fn gate_failures_map_to_status_classes() {
    assert_eq!(pool_error_status(&PoolError::Unconfigured), 500);
    assert_eq!(pool_error_status(&PoolError::Exhausted), 503);
}
