//! Test-harness bootstrap for integration tests against an ephemeral,
//! API-compatible Kubernetes control plane.
//!
//! The library holds the verified core of the harness: parsing fixture
//! documents into typed coordinates, resolving resource types against a
//! discovery catalog, planning force server-side applies with correct scope
//! handling, and the state machine that sequences cluster start, client
//! configuration, discovery, fixture application and the test body. The
//! surrounding process work (containers, network I/O) drives this core from
//! the `app` crate.

pub mod gvk;
pub mod fixture;
pub mod discovery;
pub mod applier;
pub mod server_model;
pub mod config;
pub mod runner;
