use node_manager::error::Kind;
use node_manager::registry::{Registry, WorkerKind};

#[test]
fn started_worker_is_listed_under_its_kind() {
    let mut registry = Registry::new();
    registry.register(WorkerKind::Inlet, "inlet-1".to_string()).unwrap();
    assert_eq!(registry.list(WorkerKind::Inlet), vec!["inlet-1"]);
    assert!(registry.list(WorkerKind::Outlet).is_empty());
    assert_eq!(registry.len(), 1);
}

#[test]
fn taken_address_is_a_conflict() {
    let mut registry = Registry::new();
    registry.register(WorkerKind::Service, "echo".to_string()).unwrap();
    let err = registry.register(WorkerKind::Forwarder, "echo".to_string()).unwrap_err();
    assert_eq!(err.kind, Kind::Conflict);
    assert_eq!(err.message, "Address already in use");
    assert_eq!(registry.len(), 1);
    assert!(registry.list(WorkerKind::Forwarder).is_empty());
}

#[test]
fn stopped_worker_is_in_no_listing() {
    let mut registry = Registry::new();
    registry.register(WorkerKind::SecureChannel, "sc-1".to_string()).unwrap();
    registry.register(WorkerKind::SecureChannel, "sc-2".to_string()).unwrap();
    registry.release(WorkerKind::SecureChannel, "sc-1").unwrap();
    assert_eq!(registry.list(WorkerKind::SecureChannel), vec!["sc-2"]);
    for kind in [
        WorkerKind::SecureChannel,
        WorkerKind::SecureChannelListener,
        WorkerKind::Forwarder,
        WorkerKind::Inlet,
        WorkerKind::Outlet,
        WorkerKind::Service,
    ] {
        assert!(!registry.list(kind).contains(&"sc-1".to_string()));
    }
}

#[test]
fn stopping_an_unknown_worker_is_not_found() {
    let mut registry = Registry::new();
    let err = registry.release(WorkerKind::Inlet, "nothing").unwrap_err();
    assert_eq!(err.kind, Kind::NotFound);
    assert_eq!(err.message, "Worker not found");
}

#[test]
fn stopping_under_the_wrong_kind_is_not_found() {
    let mut registry = Registry::new();
    registry.register(WorkerKind::Inlet, "portal".to_string()).unwrap();
    let err = registry.release(WorkerKind::Outlet, "portal").unwrap_err();
    assert_eq!(err.kind, Kind::NotFound);
    assert_eq!(registry.list(WorkerKind::Inlet), vec!["portal"]);
}

#[test]
fn listing_keeps_the_order_of_starting() {
    let mut registry = Registry::new();
    registry.register(WorkerKind::Outlet, "o1".to_string()).unwrap();
    registry.register(WorkerKind::Inlet, "i1".to_string()).unwrap();
    registry.register(WorkerKind::Outlet, "o2".to_string()).unwrap();
    assert_eq!(registry.list(WorkerKind::Outlet), vec!["o1", "o2"]);
    assert_eq!(registry.list(WorkerKind::Inlet), vec!["i1"]);
}
