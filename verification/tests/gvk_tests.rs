use ktest::gvk::GroupVersionKind;
use ktest::gvk::parse_api_version;

#[test]
fn split_group_and_version() {
    let (group, version) = parse_api_version("apps/v1");
    assert_eq!(group, "apps");
    assert_eq!(version, "v1");
}

#[test]
fn core_group_is_empty() {
    let (group, version) = parse_api_version("v1");
    assert_eq!(group, "");
    assert_eq!(version, "v1");
}

#[test]
fn only_first_slash_splits() {
    let (group, version) = parse_api_version("a/b/c");
    assert_eq!(group, "a");
    assert_eq!(version, "b/c");
}

#[test]
fn empty_text_gives_empty_parts() {
    let (group, version) = parse_api_version("");
    assert_eq!(group, "");
    assert_eq!(version, "");
}

#[test]
fn coordinates_from_type_fields() {
    let gvk = GroupVersionKind::from_type_fields("networking.k8s.io/v1", "Ingress");
    assert_eq!(gvk.group, "networking.k8s.io");
    assert_eq!(gvk.version, "v1");
    assert_eq!(gvk.kind, "Ingress");
    let other = GroupVersionKind::from_type_fields("networking.k8s.io/v1", "Ingress");
    assert!(gvk.same_as(&other));
    let third = GroupVersionKind::from_type_fields("v1", "Ingress");
    assert!(!gvk.same_as(&third));
}
