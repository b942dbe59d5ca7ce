use runt::container::Container;
use runt::error::{Error, ErrorKind, OCIErrorKind};
use runt::specs::Spec;
use runt::status::Status;

fn bundle_spec(rootfs: &str) -> Spec {
    let mut spec = Spec::default();
    spec.root.path = rootfs.to_string();
    spec
}

#[test]
fn container_creating_should_be_successed() {
    let container_id = "3f1c0a52-creating";
    let bundle = "/tmp/bundle-creating";
    let spec = bundle_spec("/tmp/bundle-creating/rootfs");

    let mut container = Container::new(container_id, bundle, spec);
    assert_eq!(container.id, container_id);
    assert_eq!(container.bundle, bundle);
    assert_eq!(container.status, Status::Creating);

    assert!(container.mark_created(4242).is_ok());

    assert_eq!(container.status, Status::Created);
    assert_eq!(container.pid, Some(4242));
}

#[test]
fn container_state_should_be_successed() {
    let container_id = "3f1c0a52-state";
    let bundle = "/tmp/bundle-state";
    let rootfs = "/tmp/bundle-state/rootfs";
    let mut container = Container::new(container_id, bundle, bundle_spec(rootfs));

    let state = container.state("root".to_string(), rootfs.to_string());
    assert_eq!(state.id, container_id);
    assert_eq!(state.bundle, bundle);
    assert_eq!(state.rootfs, rootfs);
    assert!(state.pid.is_none());
    assert!(state.created.is_none());
    assert_eq!(state.owner, "root");
    assert_eq!(state.oci_version, "1.0.1-dev");
    assert_eq!(state.status, Status::Creating);

    assert!(container.mark_created(77).is_ok());
    let state = container.state("root".to_string(), rootfs.to_string());
    assert!(state.created.is_some());
    assert_eq!(state.created, container.created);
    assert_eq!(state.pid, Some(77));
    assert_eq!(state.status, Status::Created);
}

#[test]
fn created_container_keeps_id_and_bundle() {
    let mut container = Container::new("keep", "/srv/bundles/keep", Spec::new());
    assert!(container.created.is_none());
    assert!(container.mark_created(1).is_ok());
    assert!(container.created.is_some());
    assert!(!container.created.clone().unwrap().is_empty());
    assert_eq!(container.id, "keep");
    assert_eq!(container.bundle, "/srv/bundles/keep");
}

#[test]
fn marking_a_created_container_again_is_an_invalid_status() {
    let mut container = Container::new("twice", "/b", Spec::new());
    assert!(container.mark_created(10).is_ok());
    let created = container.created.clone();
    let result = container.mark_created(11);
    match result {
        Err(Error { inner: ErrorKind::OCI { error } }) => {
            assert_eq!(error.kind, OCIErrorKind::InvaliedStatus)
        }
        _ => panic!("expected an invalid-status error"),
    }
    assert_eq!(container.pid, Some(10));
    assert_eq!(container.created, created);
    assert_eq!(container.status, Status::Created);
}

#[test]
fn running_container_cannot_be_marked_created() {
    let mut container = Container::new("running", "/b", Spec::new());
    container.status = Status::Running;
    assert!(container.mark_created(5).is_err());
    assert_eq!(container.status, Status::Running);
    assert!(container.pid.is_none());
}

#[test]
fn test_state() {
    let status_string = serde_json::to_string(Status::Created.as_str()).unwrap();

    assert_eq!(status_string, "\"created\"");
}

#[test]
fn status_names() {
    assert_eq!(Status::Creating.as_str(), "creating");
    assert_eq!(Status::Created.as_str(), "created");
    assert_eq!(Status::Running.as_str(), "running");
    assert_eq!(Status::Stopped.as_str(), "stopped");
}

#[test]
fn status_names_read_back() {
    for s in [Status::Creating, Status::Created, Status::Running, Status::Stopped] {
        assert_eq!(Status::from_name(s.as_str()), Some(s));
    }
    assert_eq!(Status::from_name("Created"), None);
    assert_eq!(Status::from_name(""), None);
    assert_eq!(Status::from_name("paused"), None);
}

#[test]
fn created_container_should_be_loaded_collectly() {
    let mut container = Container::new("loaded", "/tmp/bundle-loaded", Spec::new());
    assert!(container.mark_created(321).is_ok());

    let loaded_container = Container::restore(
        container.id.clone(),
        container.spec.clone(),
        container.bundle.clone(),
        container.status.as_str(),
        container.pid,
        container.created.clone(),
    );
    let loaded_container = loaded_container.unwrap();

    assert!(loaded_container.created.is_some());
    assert_eq!(loaded_container.created, container.created);
    assert_eq!(loaded_container.id, container.id);
    assert_eq!(loaded_container.bundle, container.bundle);
    assert_eq!(loaded_container.status, container.status);
    assert_eq!(loaded_container.pid, Some(321));
}

#[test]
fn restore_refuses_an_unknown_status() {
    let restored = Container::restore(
        "x".to_string(),
        Spec::new(),
        "/b".to_string(),
        "paused",
        None,
        None,
    );
    assert!(restored.is_none());
}
