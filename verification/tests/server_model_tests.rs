use ktest::applier::{ApplyOp, ApplyTarget};
use ktest::gvk::GroupVersionKind;
use ktest::server_model::{ApplyFault, ClusterModel, ObjectKey};

fn pod_op(name: &str, namespace: &str, body: &str) -> ApplyOp {
    ApplyOp {
        gvk: GroupVersionKind::from_type_fields("v1", "Pod"),
        resource: String::from("pods"),
        target: ApplyTarget::InNamespace(String::from(namespace)),
        name: String::from(name),
        field_manager: String::from("ktest"),
        force: true,
        body: String::from(body),
    }
}

fn namespace_op(name: &str) -> ApplyOp {
    ApplyOp {
        gvk: GroupVersionKind::from_type_fields("v1", "Namespace"),
        resource: String::from("namespaces"),
        target: ApplyTarget::Cluster,
        name: String::from(name),
        field_manager: String::from("ktest"),
        force: true,
        body: String::from("apiVersion: v1\nkind: Namespace\n"),
    }
}

fn pod_key(name: &str, namespace: &str) -> ObjectKey {
    ObjectKey {
        resource: String::from("pods"),
        namespace: Some(String::from(namespace)),
        name: String::from(name),
    }
}

#[test]
fn apply_twice_leaves_no_diff() {
    let mut cluster = ClusterModel::new();
    cluster.register_namespace(String::from("default"));
    let op = pod_op("test-pod", "default", "spec-one");

    assert!(cluster.apply(&op).is_ok());
    let first = cluster.get_object(&pod_key("test-pod", "default"));
    assert!(cluster.apply(&op).is_ok());
    let second = cluster.get_object(&pod_key("test-pod", "default"));

    assert_eq!(first.as_deref(), Some("spec-one"));
    assert_eq!(second.as_deref(), Some("spec-one"));
    assert_eq!(first, second);
}

#[test]
fn reapply_converges_to_latest_document() {
    let mut cluster = ClusterModel::new();
    cluster.register_namespace(String::from("default"));
    assert!(cluster.apply(&pod_op("test-pod", "default", "spec-one")).is_ok());
    assert!(cluster.apply(&pod_op("test-pod", "default", "spec-two")).is_ok());
    let stored = cluster.get_object(&pod_key("test-pod", "default"));
    assert_eq!(stored.as_deref(), Some("spec-two"));
}

#[test]
fn namespace_must_exist_before_its_objects() {
    let mut cluster = ClusterModel::new();
    let workload = pod_op("worker", "team-a", "spec");

    // Wrong order: the namespaced write is rejected and nothing is stored.
    assert_eq!(cluster.apply(&workload), Err(ApplyFault::MissingNamespace));
    assert!(cluster.get_object(&pod_key("worker", "team-a")).is_none());

    // Right order: the namespace object first, then the workload.
    assert!(cluster.apply(&namespace_op("team-a")).is_ok());
    assert!(cluster.apply(&workload).is_ok());
    assert_eq!(
        cluster.get_object(&pod_key("worker", "team-a")).as_deref(),
        Some("spec")
    );
}

#[test]
fn cluster_scoped_object_is_stored_without_namespace() {
    let mut cluster = ClusterModel::new();
    assert!(cluster.apply(&namespace_op("team-a")).is_ok());
    let key = ObjectKey {
        resource: String::from("namespaces"),
        namespace: None,
        name: String::from("team-a"),
    };
    assert!(cluster.get_object(&key).is_some());
}
