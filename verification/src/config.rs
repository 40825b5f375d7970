//! Synthesis of the hermetic, in-memory client connection profile: one
//! cluster entry, one context pointing at it with an anonymous user, and
//! that context marked current. No on-disk credentials are ever read.

use vstd::prelude::*;

verus! {

/// The minimal connection profile a run builds from the ephemeral cluster's
/// address.
pub struct ClientConfig {
    pub cluster_name: String,
    pub context_name: String,
    pub user_name: String,
    pub server_host: String,
    pub server_port: u16,
    pub current_context: String,
}

/// Mathematical image of a `ClientConfig`.
pub struct ClientConfigView {
    pub cluster_name: Seq<char>,
    pub context_name: Seq<char>,
    pub user_name: Seq<char>,
    pub server_host: Seq<char>,
    pub server_port: u16,
    pub current_context: Seq<char>,
}

impl View for ClientConfig {
    type V = ClientConfigView;

    open spec fn view(&self) -> ClientConfigView {
        ClientConfigView {
            cluster_name: self.cluster_name@,
            context_name: self.context_name@,
            user_name: self.user_name@,
            server_host: self.server_host@,
            server_port: self.server_port,
            current_context: self.current_context@,
        }
    }
}

/// The fixed name under which the harness registers its cluster, context
/// and user entries.
pub open spec fn harness_identity() -> Seq<char> {
    "kwok-kwok"@
}

/// The host the ephemeral cluster's API port is exposed on.
pub open spec fn local_host() -> Seq<char> {
    "localhost"@
}

/// A profile is well formed when its single context is the current one.
pub open spec fn config_wf(c: ClientConfigView) -> bool {
    c.current_context == c.context_name
}

/// The profile a cluster address calls for.
pub open spec fn config_spec(port: u16) -> ClientConfigView {
    ClientConfigView {
        cluster_name: harness_identity(),
        context_name: harness_identity(),
        user_name: harness_identity(),
        server_host: local_host(),
        server_port: port,
        current_context: harness_identity(),
    }
}

/// Build the connection profile for the cluster exposed at this port.
pub fn build_client_config(port: u16) -> (c: ClientConfig)
    ensures
        c@ == config_spec(port),
        config_wf(c@),
{
    ClientConfig {
        cluster_name: String::from_str("kwok-kwok"),
        context_name: String::from_str("kwok-kwok"),
        user_name: String::from_str("kwok-kwok"),
        server_host: String::from_str("localhost"),
        server_port: port,
        current_context: String::from_str("kwok-kwok"),
    }
}

} // verus!
