//! The bootstrap sequencing of one test run, as a state machine. The run's
//! outside work — installing the crypto provider, starting the container,
//! connecting the client, the discovery sweep, reading fixture files,
//! committing applies, invoking the test body — is performed by the caller,
//! which feeds each outcome back as an event and performs the next action
//! the machine hands out. The machine fixes the order of the stages, plans
//! every fixture apply, applies fixtures strictly in declared order, and
//! aborts all remaining work at the first failure.

use vstd::prelude::*;
use crate::gvk::GroupVersionKind;
use crate::fixture::{parse_fixture, parsed_fixture, ParseFault};
use crate::discovery::{DiscoveryCatalog, CatalogEntry, entries_view, has_entry};
use crate::applier::{plan_apply, plan_spec, ApplyOp};
use crate::config::{build_client_config, ClientConfig, config_spec};

verus! {

/// A test's declared inputs: the ordered list of fixture file paths.
pub struct TestSpec {
    pub fixture_paths: Vec<String>,
}

impl View for TestSpec {
    type V = Seq<Seq<char>>;

    open spec fn view(&self) -> Seq<Seq<char>> {
        Seq::new(self.fixture_paths@.len(), |i: int| self.fixture_paths@[i]@)
    }
}

/// The stage at which a run died, with the offending resource where one
/// exists. Every error is fatal: nothing is retried.
pub enum RunError {
    /// The cluster failed to start or become ready.
    Provision,
    /// The client profile could not be synthesized or connected.
    Config,
    /// The server's resource types could not be enumerated.
    Discovery,
    /// A fixture file was unreadable or malformed.
    Parse { index: usize, fault: ParseFault },
    /// A fixture's type is unknown to discovery.
    Resolution { index: usize, gvk: GroupVersionKind },
    /// The server rejected a fixture's write.
    Apply { index: usize },
}

/// Where a run stands. `Applying { next, .. }` says fixtures before `next`
/// are committed and nothing later has been attempted.
pub enum RunState {
    Init,
    CryptoPending,
    CryptoReady,
    ClusterUp { port: u16 },
    ClientReady,
    Applying { catalog: DiscoveryCatalog, next: usize },
    TestRunning,
    Completed,
    Failed { error: RunError },
}

/// The outcome of one outside action, fed back to the machine.
pub enum RunEvent {
    /// The run begins; says whether a crypto provider is already installed.
    Begin { crypto_present: bool },
    CryptoInstalled { ok: bool },
    /// The cluster came up on this exposed port, or failed to.
    ClusterStarted { port: Option<u16> },
    ClientBuilt { ok: bool },
    /// The discovery sweep's entries, or its failure.
    DiscoveryFinished { entries: Option<Vec<CatalogEntry>> },
    /// The next fixture file's contents, or its read failure.
    FixtureLoaded { text: Option<String> },
    ApplyFinished { ok: bool },
    TestFinished,
}

/// The next piece of outside work the caller must perform.
pub enum RunAction {
    InstallCrypto,
    StartCluster,
    BuildClient { config: ClientConfig },
    RunDiscovery,
    LoadFixture { index: usize, path: String },
    ApplyFixture { index: usize, op: ApplyOp },
    InvokeTestBody,
    /// The run is dead; stop and report the state's error.
    Abort,
    Finish,
    /// The event did not answer the pending action; nothing to do.
    Idle,
}

/// The transition relation of the run: what the machine must answer to each
/// state and event. Fixture outcomes are judged by the parsing and planning
/// specifications; an event that does not answer the pending stage leaves
/// the state alone.
pub open spec fn step_ok(
    nfix: nat,
    paths: Seq<Seq<char>>,
    dns: Seq<char>,
    state: RunState,
    event: RunEvent,
    r: (RunState, RunAction),
) -> bool {
    match (state, event) {
        (RunState::Failed { error }, _) => r.0 == (RunState::Failed { error }) && r.1 is Abort,
        (RunState::Init, RunEvent::Begin { crypto_present }) => {
            if crypto_present {
                r == (RunState::CryptoReady, RunAction::StartCluster)
            } else {
                r == (RunState::CryptoPending, RunAction::InstallCrypto)
            }
        },
        (RunState::CryptoPending, RunEvent::CryptoInstalled { ok }) => {
            if ok {
                r == (RunState::CryptoReady, RunAction::StartCluster)
            } else {
                r.0 == (RunState::Failed { error: RunError::Provision }) && r.1 is Abort
            }
        },
        (RunState::CryptoReady, RunEvent::ClusterStarted { port }) => {
            match port {
                Option::Some(p) => r.0 == (RunState::ClusterUp { port: p }) && match r.1 {
                    RunAction::BuildClient { config } => config@ == config_spec(p),
                    _ => false,
                },
                Option::None => r.0 == (RunState::Failed { error: RunError::Provision })
                    && r.1 is Abort,
            }
        },
        (RunState::ClusterUp { .. }, RunEvent::ClientBuilt { ok }) => {
            if ok {
                r == (RunState::ClientReady, RunAction::RunDiscovery)
            } else {
                r.0 == (RunState::Failed { error: RunError::Config }) && r.1 is Abort
            }
        },
        (RunState::ClientReady, RunEvent::DiscoveryFinished { entries }) => {
            match entries {
                Option::Some(es) => {
                    if nfix == 0 {
                        r == (RunState::TestRunning, RunAction::InvokeTestBody)
                    } else {
                        (match r.0 {
                            RunState::Applying { catalog, next } => catalog@ == entries_view(es@)
                                && next == 0,
                            _ => false,
                        }) && match r.1 {
                            RunAction::LoadFixture { index, path } => index == 0 && path@ == paths[0],
                            _ => false,
                        }
                    }
                },
                Option::None => r.0 == (RunState::Failed { error: RunError::Discovery })
                    && r.1 is Abort,
            }
        },
        (RunState::Applying { catalog, next }, RunEvent::FixtureLoaded { text }) => {
            if next < nfix {
                match text {
                    Option::None => r.0 == (RunState::Failed {
                        error: RunError::Parse { index: next, fault: ParseFault::Unreadable },
                    }) && r.1 is Abort,
                    Option::Some(t) => match parsed_fixture(t@) {
                        Result::Err(f) => r.0 == (RunState::Failed {
                            error: RunError::Parse { index: next, fault: f },
                        }) && r.1 is Abort,
                        Result::Ok(d) => {
                            if has_entry(catalog@, d.gvk) {
                                (match r.0 {
                                    RunState::Applying { catalog: c2, next: n2 } => c2@ == catalog@
                                        && n2 == next,
                                    _ => false,
                                }) && match r.1 {
                                    RunAction::ApplyFixture { index, op } => index == next && op@
                                        == plan_spec(catalog@, d, dns),
                                    _ => false,
                                }
                            } else {
                                (match r.0 {
                                    RunState::Failed {
                                        error: RunError::Resolution { index, gvk },
                                    } => index == next && gvk@ == d.gvk,
                                    _ => false,
                                }) && r.1 is Abort
                            }
                        },
                    },
                }
            } else {
                r.0 == (RunState::Applying { catalog, next }) && r.1 is Idle
            }
        },
        (RunState::Applying { catalog, next }, RunEvent::ApplyFinished { ok }) => {
            if next < nfix {
                if ok {
                    if next + 1 == nfix {
                        r == (RunState::TestRunning, RunAction::InvokeTestBody)
                    } else {
                        (match r.0 {
                            RunState::Applying { catalog: c2, next: n2 } => c2@ == catalog@ && n2
                                == next + 1,
                            _ => false,
                        }) && match r.1 {
                            RunAction::LoadFixture { index, path } => index == next + 1 && path@
                                == paths[next + 1],
                            _ => false,
                        }
                    }
                } else {
                    r.0 == (RunState::Failed { error: RunError::Apply { index: next } })
                        && r.1 is Abort
                }
            } else {
                r.0 == (RunState::Applying { catalog, next }) && r.1 is Idle
            }
        },
        (RunState::TestRunning, RunEvent::TestFinished) => r == (
            RunState::Completed,
            RunAction::Finish,
        ),
        (s, _) => r == (s, RunAction::Idle),
    }
}

/// Answer one event: move the run forward and hand back the next piece of
/// outside work. Fixtures are parsed and their applies planned here; every
/// failure moves to the absorbing `Failed` state, so no work is ever asked
/// for past the first failure, and applies are asked for strictly in the
/// declared order.
pub fn step(spec: &TestSpec, default_namespace: &str, state: RunState, event: RunEvent) -> (r: (
    RunState,
    RunAction,
))
    ensures
        step_ok(spec@.len(), spec@, default_namespace@, state, event, r),
        // a run with no declared fixtures never asks for fixture work
        match r.1 {
            RunAction::LoadFixture { .. } => spec@.len() > 0,
            RunAction::ApplyFixture { .. } => spec@.len() > 0,
            _ => true,
        },
        // an apply is asked for only at the head of the uncommitted suffix
        match r.1 {
            RunAction::ApplyFixture { index, .. } => match state {
                RunState::Applying { next, .. } => index == next && index < spec@.len(),
                _ => false,
            },
            _ => true,
        },
{
    let n: usize = spec.fixture_paths.len();
    match (state, event) {
        (RunState::Failed { error }, _) => (RunState::Failed { error }, RunAction::Abort),
        (RunState::Init, RunEvent::Begin { crypto_present }) => {
            if crypto_present {
                (RunState::CryptoReady, RunAction::StartCluster)
            } else {
                (RunState::CryptoPending, RunAction::InstallCrypto)
            }
        },
        (RunState::CryptoPending, RunEvent::CryptoInstalled { ok }) => {
            if ok {
                (RunState::CryptoReady, RunAction::StartCluster)
            } else {
                (RunState::Failed { error: RunError::Provision }, RunAction::Abort)
            }
        },
        (RunState::CryptoReady, RunEvent::ClusterStarted { port }) => {
            match port {
                Some(p) => (
                    RunState::ClusterUp { port: p },
                    RunAction::BuildClient { config: build_client_config(p) },
                ),
                None => (RunState::Failed { error: RunError::Provision }, RunAction::Abort),
            }
        },
        (RunState::ClusterUp { port }, RunEvent::ClientBuilt { ok }) => {
            if ok {
                (RunState::ClientReady, RunAction::RunDiscovery)
            } else {
                (RunState::Failed { error: RunError::Config }, RunAction::Abort)
            }
        },
        (RunState::ClientReady, RunEvent::DiscoveryFinished { entries }) => {
            match entries {
                Some(es) => {
                    if n == 0 {
                        (RunState::TestRunning, RunAction::InvokeTestBody)
                    } else {
                        let catalog = DiscoveryCatalog::from_entries(es);
                        let path = spec.fixture_paths[0].clone();
                        (
                            RunState::Applying { catalog, next: 0 },
                            RunAction::LoadFixture { index: 0, path },
                        )
                    }
                },
                None => (RunState::Failed { error: RunError::Discovery }, RunAction::Abort),
            }
        },
        (RunState::Applying { catalog, next }, RunEvent::FixtureLoaded { text }) => {
            if next < n {
                match text {
                    None => (
                        RunState::Failed {
                            error: RunError::Parse { index: next, fault: ParseFault::Unreadable },
                        },
                        RunAction::Abort,
                    ),
                    Some(t) => match parse_fixture(t) {
                        Err(f) => (
                            RunState::Failed { error: RunError::Parse { index: next, fault: f } },
                            RunAction::Abort,
                        ),
                        Ok(doc) => match plan_apply(&catalog, &doc, default_namespace) {
                            Ok(op) => (
                                RunState::Applying { catalog, next },
                                RunAction::ApplyFixture { index: next, op },
                            ),
                            Err(gvk) => (
                                RunState::Failed {
                                    error: RunError::Resolution { index: next, gvk },
                                },
                                RunAction::Abort,
                            ),
                        },
                    },
                }
            } else {
                (RunState::Applying { catalog, next }, RunAction::Idle)
            }
        },
        (RunState::Applying { catalog, next }, RunEvent::ApplyFinished { ok }) => {
            if next < n {
                if ok {
                    if next + 1 == n {
                        (RunState::TestRunning, RunAction::InvokeTestBody)
                    } else {
                        let path = spec.fixture_paths[next + 1].clone();
                        (
                            RunState::Applying { catalog, next: next + 1 },
                            RunAction::LoadFixture { index: next + 1, path },
                        )
                    }
                } else {
                    (
                        RunState::Failed { error: RunError::Apply { index: next } },
                        RunAction::Abort,
                    )
                }
            } else {
                (RunState::Applying { catalog, next }, RunAction::Idle)
            }
        },
        (RunState::TestRunning, RunEvent::TestFinished) => (
            RunState::Completed,
            RunAction::Finish,
        ),
        (s, _) => (s, RunAction::Idle),
    }
}

/// The index a fixture-apply action asks for, if the action is one.
pub open spec fn apply_index(a: RunAction) -> Option<usize> {
    match a {
        RunAction::ApplyFixture { index, .. } => Option::Some(index),
        _ => Option::None,
    }
}

/// The state a chained run stands in before its `i`-th step.
pub open spec fn state_before(s0: RunState, steps: Seq<(RunState, RunAction)>, i: int) -> RunState {
    if i == 0 {
        s0
    } else {
        steps[i - 1].0
    }
}

/// A whole run: every step answers its event from the state the step before
/// it left behind, as the transition relation allows.
pub open spec fn run_chain_ok(
    nfix: nat,
    paths: Seq<Seq<char>>,
    dns: Seq<char>,
    s0: RunState,
    events: Seq<RunEvent>,
    steps: Seq<(RunState, RunAction)>,
) -> bool {
    &&& steps.len() == events.len()
    &&& forall|i: int|
        0 <= i < steps.len() ==> step_ok(
            nfix,
            paths,
            dns,
            state_before(s0, steps, i),
            events[i],
            #[trigger] steps[i],
        )
}

/// How far through its stages a run has come; within fixture application,
/// how many fixtures are committed.
pub open spec fn run_measure(s: RunState) -> (int, int) {
    match s {
        RunState::Init => (0int, 0int),
        RunState::CryptoPending => (1int, 0int),
        RunState::CryptoReady => (2int, 0int),
        RunState::ClusterUp { .. } => (3int, 0int),
        RunState::ClientReady => (4int, 0int),
        RunState::Applying { next, .. } => (5int, next as int),
        RunState::TestRunning => (6int, 0int),
        RunState::Completed => (7int, 0int),
        RunState::Failed { .. } => (8int, 0int),
    }
}

pub open spec fn measure_le(a: (int, int), b: (int, int)) -> bool {
    a.0 < b.0 || (a.0 == b.0 && a.1 <= b.1)
}

/// One allowed step never moves a run backwards: stages only advance, and
/// the committed fixture prefix never shrinks.
pub proof fn lemma_step_measure_monotone(
    nfix: nat,
    paths: Seq<Seq<char>>,
    dns: Seq<char>,
    state: RunState,
    event: RunEvent,
    r: (RunState, RunAction),
)
    requires
        step_ok(nfix, paths, dns, state, event, r),
    ensures
        measure_le(run_measure(state), run_measure(r.0)),
{
}

/// A fixture apply is only ever asked for from within fixture application,
/// for exactly the first uncommitted fixture.
pub proof fn lemma_apply_comes_from_applying(
    nfix: nat,
    paths: Seq<Seq<char>>,
    dns: Seq<char>,
    state: RunState,
    event: RunEvent,
    r: (RunState, RunAction),
)
    requires
        step_ok(nfix, paths, dns, state, event, r),
        apply_index(r.1) is Some,
    ensures
        match state {
            RunState::Applying { next, .. } => apply_index(r.1).unwrap() == next,
            _ => false,
        },
{
}

proof fn lemma_chain_measure(
    nfix: nat,
    paths: Seq<Seq<char>>,
    dns: Seq<char>,
    s0: RunState,
    events: Seq<RunEvent>,
    steps: Seq<(RunState, RunAction)>,
    i: int,
    j: int,
)
    requires
        run_chain_ok(nfix, paths, dns, s0, events, steps),
        0 <= i <= j < steps.len(),
    ensures
        measure_le(
            run_measure(state_before(s0, steps, i)),
            run_measure(state_before(s0, steps, j)),
        ),
    decreases j - i,
{
    if i < j {
        lemma_chain_measure(nfix, paths, dns, s0, events, steps, i, j - 1);
        lemma_step_measure_monotone(
            nfix,
            paths,
            dns,
            state_before(s0, steps, j - 1),
            events[j - 1],
            steps[j - 1],
        );
    }
}

/// Over a whole run, fixture applies are asked for in nondecreasing index
/// order: the declared order is never reordered.
pub proof fn lemma_applies_in_declared_order(
    nfix: nat,
    paths: Seq<Seq<char>>,
    dns: Seq<char>,
    s0: RunState,
    events: Seq<RunEvent>,
    steps: Seq<(RunState, RunAction)>,
    i: int,
    j: int,
)
    requires
        run_chain_ok(nfix, paths, dns, s0, events, steps),
        0 <= i <= j < steps.len(),
        apply_index(steps[i].1) is Some,
        apply_index(steps[j].1) is Some,
    ensures
        apply_index(steps[i].1).unwrap() <= apply_index(steps[j].1).unwrap(),
{
    lemma_apply_comes_from_applying(
        nfix,
        paths,
        dns,
        state_before(s0, steps, i),
        events[i],
        steps[i],
    );
    lemma_apply_comes_from_applying(
        nfix,
        paths,
        dns,
        state_before(s0, steps, j),
        events[j],
        steps[j],
    );
    lemma_chain_measure(nfix, paths, dns, s0, events, steps, i, j);
}

/// Over a whole run with no declared fixtures, no step ever asks for
/// fixture work.
pub proof fn lemma_run_without_fixtures_does_no_fixture_work(
    paths: Seq<Seq<char>>,
    dns: Seq<char>,
    s0: RunState,
    events: Seq<RunEvent>,
    steps: Seq<(RunState, RunAction)>,
)
    requires
        run_chain_ok(0, paths, dns, s0, events, steps),
    ensures
        forall|i: int|
            0 <= i < steps.len() ==> !((#[trigger] steps[i]).1 is ApplyFixture) && !(
            steps[i].1 is LoadFixture),
{
    assert forall|i: int|
        0 <= i < steps.len() implies !((#[trigger] steps[i]).1 is ApplyFixture) && !(
    steps[i].1 is LoadFixture) by {
        lemma_no_fixture_work_without_fixtures(
            paths,
            dns,
            state_before(s0, steps, i),
            events[i],
            steps[i],
        );
    }
}

/// Over a whole run, nothing happens past a failure: from the step where a
/// run stands failed, every later step leaves it failed with the same error
/// and asks only for the abort, so no fixture at or past the failure is
/// ever written.
pub proof fn lemma_run_stops_at_first_failure(
    nfix: nat,
    paths: Seq<Seq<char>>,
    dns: Seq<char>,
    s0: RunState,
    events: Seq<RunEvent>,
    steps: Seq<(RunState, RunAction)>,
    i: int,
    j: int,
)
    requires
        run_chain_ok(nfix, paths, dns, s0, events, steps),
        0 <= i <= j < steps.len(),
        state_before(s0, steps, i) is Failed,
    ensures
        steps[j].0 == state_before(s0, steps, i),
        steps[j].1 is Abort,
    decreases j - i,
{
    if i == j {
    } else {
        lemma_run_stops_at_first_failure(nfix, paths, dns, s0, events, steps, i, j - 1);
    }
}

/// A run whose spec declares no fixtures performs no fixture-related work:
/// no step the machine allows ever asks the caller to load or apply a
/// fixture.
pub proof fn lemma_no_fixture_work_without_fixtures(
    paths: Seq<Seq<char>>,
    dns: Seq<char>,
    state: RunState,
    event: RunEvent,
    r: (RunState, RunAction),
)
    requires
        step_ok(0, paths, dns, state, event, r),
    ensures
        !(r.1 is LoadFixture),
        !(r.1 is ApplyFixture),
{
}

/// A run whose spec declares no fixtures goes from a finished discovery
/// sweep straight to the test body.
pub proof fn lemma_empty_spec_reaches_test_body(
    paths: Seq<Seq<char>>,
    dns: Seq<char>,
    es: Vec<CatalogEntry>,
    r: (RunState, RunAction),
)
    requires
        step_ok(
            0,
            paths,
            dns,
            RunState::ClientReady,
            RunEvent::DiscoveryFinished { entries: Some(es) },
            r,
        ),
    ensures
        r.0 is TestRunning,
        r.1 is InvokeTestBody,
{
}

/// Failure is absorbing: once a stage has failed, every later event leaves
/// the run failed with the same error and asks for no further work, so no
/// fixture at or past the failure is ever written.
pub proof fn lemma_failure_absorbing(
    nfix: nat,
    paths: Seq<Seq<char>>,
    dns: Seq<char>,
    error: RunError,
    event: RunEvent,
    r: (RunState, RunAction),
)
    requires
        step_ok(nfix, paths, dns, RunState::Failed { error }, event, r),
    ensures
        r.0 == (RunState::Failed { error }),
        r.1 is Abort,
{
}

} // verus!
