//! Whole-run tests: the run state machine driven against the in-memory
//! server model, with fixture texts standing in for files on disk.

use ktest::discovery::{CatalogEntry, ResourceScope};
use ktest::gvk::GroupVersionKind;
use ktest::runner::{step, RunAction, RunError, RunEvent, RunState, TestSpec};
use ktest::server_model::{ClusterModel, ObjectKey};

fn entry(api_version: &str, kind: &str, resource: &str, scope: ResourceScope) -> CatalogEntry {
    CatalogEntry {
        gvk: GroupVersionKind::from_type_fields(api_version, kind),
        resource: String::from(resource),
        scope,
    }
}

fn catalog_entries() -> Vec<CatalogEntry> {
    vec![
        entry("v1", "Namespace", "namespaces", ResourceScope::Cluster),
        entry("v1", "Pod", "pods", ResourceScope::Namespaced),
    ]
}

fn fixture_text(path: &str) -> Option<String> {
    match path {
        "ns.yaml" => Some(String::from(
            "apiVersion: v1\nkind: Namespace\nmetadata:\n  name: team-a\n",
        )),
        "pod.yaml" => Some(String::from(
            "apiVersion: v1\nkind: Pod\nmetadata:\n  name: test-pod\n  namespace: team-a\n",
        )),
        _ => None,
    }
}

/// Drive one run from a finished discovery sweep to its end, committing
/// applies against the model; the outcome is the final state.
fn drive(fixture_paths: Vec<String>, cluster: &mut ClusterModel) -> RunState {
    let spec = TestSpec { fixture_paths };
    let mut state = RunState::ClientReady;
    let mut event = RunEvent::DiscoveryFinished { entries: Some(catalog_entries()) };
    loop {
        let (next_state, action) = step(&spec, "default", state, event);
        state = next_state;
        event = match action {
            RunAction::LoadFixture { path, .. } => RunEvent::FixtureLoaded {
                text: fixture_text(&path),
            },
            RunAction::ApplyFixture { op, .. } => RunEvent::ApplyFinished {
                ok: cluster.apply(&op).is_ok(),
            },
            RunAction::InvokeTestBody => RunEvent::TestFinished,
            RunAction::Finish | RunAction::Abort | RunAction::Idle => return state,
            _ => panic!("the run asked for work outside the fixture stages"),
        };
    }
}

#[test]
fn declared_order_commits_both_objects() {
    let mut cluster = ClusterModel::new();
    let end = drive(
        vec![String::from("ns.yaml"), String::from("pod.yaml")],
        &mut cluster,
    );
    assert!(matches!(end, RunState::Completed));
    let key = ObjectKey {
        resource: String::from("pods"),
        namespace: Some(String::from("team-a")),
        name: String::from("test-pod"),
    };
    assert!(cluster.get_object(&key).is_some());
}

#[test]
fn swapped_order_fails_on_the_dependent_fixture() {
    let mut cluster = ClusterModel::new();
    let end = drive(
        vec![String::from("pod.yaml"), String::from("ns.yaml")],
        &mut cluster,
    );
    match end {
        RunState::Failed { error: RunError::Apply { index } } => assert_eq!(index, 0),
        _ => panic!("expected the dependent fixture's apply to fail"),
    }
    // Nothing was committed: the run stopped at the first failure.
    let key = ObjectKey {
        resource: String::from("namespaces"),
        namespace: None,
        name: String::from("team-a"),
    };
    assert!(cluster.get_object(&key).is_none());
}

#[test]
fn rerunning_the_same_fixtures_changes_nothing() {
    let mut cluster = ClusterModel::new();
    let paths = vec![String::from("ns.yaml"), String::from("pod.yaml")];
    let first = drive(paths.clone(), &mut cluster);
    assert!(matches!(first, RunState::Completed));
    let key = ObjectKey {
        resource: String::from("pods"),
        namespace: Some(String::from("team-a")),
        name: String::from("test-pod"),
    };
    let stored_once = cluster.get_object(&key);

    let second = drive(paths, &mut cluster);
    assert!(matches!(second, RunState::Completed));
    assert_eq!(cluster.get_object(&key), stored_once);
}
