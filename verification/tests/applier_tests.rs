use ktest::applier::{plan_apply, select_target, ApplyTarget};
use ktest::discovery::{CatalogEntry, DiscoveryCatalog, ResourceScope};
use ktest::fixture::parse_fixture;
use ktest::gvk::GroupVersionKind;

fn entry(api_version: &str, kind: &str, resource: &str, scope: ResourceScope) -> CatalogEntry {
    CatalogEntry {
        gvk: GroupVersionKind::from_type_fields(api_version, kind),
        resource: String::from(resource),
        scope,
    }
}

#[test]
fn cluster_scope_ignores_namespace_field() {
    let t = select_target(
        ResourceScope::Cluster,
        &Some(String::from("some-namespace")),
        "default",
    );
    assert!(matches!(t, ApplyTarget::Cluster));
}

#[test]
fn namespaced_scope_uses_document_namespace() {
    let t = select_target(
        ResourceScope::Namespaced,
        &Some(String::from("team-a")),
        "default",
    );
    match t {
        ApplyTarget::InNamespace(ns) => assert_eq!(ns, "team-a"),
        ApplyTarget::Cluster => panic!("expected a namespaced target"),
    }
}

#[test]
fn namespaced_scope_falls_back_to_default() {
    let t = select_target(ResourceScope::Namespaced, &None, "default");
    match t {
        ApplyTarget::InNamespace(ns) => assert_eq!(ns, "default"),
        ApplyTarget::Cluster => panic!("expected a namespaced target"),
    }
}

#[test]
fn plan_fixes_manager_and_force() {
    let catalog = DiscoveryCatalog::from_entries(vec![entry(
        "v1",
        "Pod",
        "pods",
        ResourceScope::Namespaced,
    )]);
    let doc = parse_fixture(String::from(
        "apiVersion: v1\nkind: Pod\nmetadata:\n  name: test-pod\n  namespace: default\n",
    ))
    .unwrap();
    let op = plan_apply(&catalog, &doc, "fallback").unwrap();
    assert_eq!(op.resource, "pods");
    assert_eq!(op.name, "test-pod");
    assert_eq!(op.field_manager, "ktest");
    assert!(op.force);
    assert_eq!(op.gvk.kind, "Pod");
    match op.target {
        ApplyTarget::InNamespace(ns) => assert_eq!(ns, "default"),
        ApplyTarget::Cluster => panic!("expected a namespaced target"),
    }
}

#[test]
fn plan_of_cluster_scoped_fixture_with_namespace_targets_cluster() {
    let catalog = DiscoveryCatalog::from_entries(vec![entry(
        "v1",
        "Namespace",
        "namespaces",
        ResourceScope::Cluster,
    )]);
    let doc = parse_fixture(String::from(
        "apiVersion: v1\nkind: Namespace\nmetadata:\n  name: team-a\n  namespace: ignored\n",
    ))
    .unwrap();
    let op = plan_apply(&catalog, &doc, "default").unwrap();
    assert!(matches!(op.target, ApplyTarget::Cluster));
    assert_eq!(op.resource, "namespaces");
}

#[test]
fn unknown_type_fails_resolution_with_its_coordinates() {
    let catalog = DiscoveryCatalog::from_entries(vec![]);
    let doc = parse_fixture(String::from(
        "apiVersion: example.io/v1\nkind: Widget\nmetadata:\n  name: w\n",
    ))
    .unwrap();
    let gvk = plan_apply(&catalog, &doc, "default").unwrap_err();
    assert_eq!(gvk.group, "example.io");
    assert_eq!(gvk.version, "v1");
    assert_eq!(gvk.kind, "Widget");
}
