use ktest::discovery::{CatalogEntry, DiscoveryCatalog, ResourceScope};
use ktest::gvk::GroupVersionKind;

fn entry(api_version: &str, kind: &str, resource: &str, scope: ResourceScope) -> CatalogEntry {
    CatalogEntry {
        gvk: GroupVersionKind::from_type_fields(api_version, kind),
        resource: String::from(resource),
        scope,
    }
}

fn sample_catalog() -> DiscoveryCatalog {
    DiscoveryCatalog::from_entries(vec![
        entry("v1", "Pod", "pods", ResourceScope::Namespaced),
        entry("v1", "Namespace", "namespaces", ResourceScope::Cluster),
        entry("apps/v1", "Deployment", "deployments", ResourceScope::Namespaced),
    ])
}

#[test]
fn resolve_namespaced_type() {
    let catalog = sample_catalog();
    let gvk = GroupVersionKind::from_type_fields("v1", "Pod");
    let (resource, scope) = catalog.resolve(&gvk).unwrap();
    assert_eq!(resource, "pods");
    assert_eq!(scope, ResourceScope::Namespaced);
}

#[test]
fn resolve_cluster_type() {
    let catalog = sample_catalog();
    let gvk = GroupVersionKind::from_type_fields("v1", "Namespace");
    let (resource, scope) = catalog.resolve(&gvk).unwrap();
    assert_eq!(resource, "namespaces");
    assert_eq!(scope, ResourceScope::Cluster);
}

#[test]
fn unknown_type_is_unresolved() {
    let catalog = sample_catalog();
    let gvk = GroupVersionKind::from_type_fields("example.io/v1", "Widget");
    assert!(catalog.resolve(&gvk).is_none());
}

#[test]
fn first_entry_wins() {
    let catalog = DiscoveryCatalog::from_entries(vec![
        entry("v1", "Pod", "pods", ResourceScope::Namespaced),
        entry("v1", "Pod", "pods-shadow", ResourceScope::Cluster),
    ]);
    let gvk = GroupVersionKind::from_type_fields("v1", "Pod");
    let (resource, scope) = catalog.resolve(&gvk).unwrap();
    assert_eq!(resource, "pods");
    assert_eq!(scope, ResourceScope::Namespaced);
}
