//! The recreate-relevant configuration of a container, captured from an
//! inspect call before any destructive step, and the merge that assembles the
//! creation payload from it.
//!
//! The payload keeps three parts separate on purpose: the process
//! configuration, the host configuration, and the per-network endpoint
//! configurations.  The latter two are not part of the process configuration
//! and must be merged in explicitly — dropping them silently loses mounts,
//! resource limits, or network attachments on recreation.

use vstd::prelude::*;

verus! {

/// The result of inspecting an image reference: its content identifier and
/// the registry-qualified repo digests it was pulled under.  An empty digest
/// list means the image was built locally and offers nothing to compare
/// against.
#[derive(Debug)]
pub struct ImageDigestInfo {
    /// The image's content identifier, when the runtime reports one.
    pub content_id: Option<String>,
    /// The registry-qualified repo digests, possibly empty.
    pub repo_digests: Vec<String>,
}

/// One label attached to a container.
#[derive(Debug)]
pub struct LabelEntry {
    pub key: String,
    pub value: String,
}

/// The process and image configuration of a container: everything the
/// creation payload takes from the generic configuration section of the
/// inspect result.
#[derive(Debug)]
pub struct ProcessConfig {
    /// The image reference the container runs.
    pub image: Option<String>,
    /// The entrypoint, one argument per element.
    pub entrypoint: Option<Vec<String>>,
    /// The command, one argument per element.
    pub cmd: Option<Vec<String>>,
    /// Environment entries, each of the form `NAME=value`.
    pub env: Option<Vec<String>>,
    /// The labels attached to the container.
    pub labels: Vec<LabelEntry>,
    /// The exposed ports, each of the form `port/protocol`.
    pub exposed_ports: Vec<String>,
    /// The user the process runs as, when set.
    pub user: Option<String>,
    /// The working directory, when set.
    pub working_dir: Option<String>,
}

/// One mount of the container.
#[derive(Debug)]
pub struct MountSpec {
    /// The mount's kind, such as `bind` or `volume`.
    pub kind: String,
    /// The source path or volume name.
    pub source: String,
    /// The target path inside the container.
    pub target: String,
    /// Whether the mount is read-only.
    pub read_only: bool,
}

/// The host configuration of a container: resource limits, mounts and the
/// restart policy.  It stands beside the process configuration in the
/// creation payload.
#[derive(Debug)]
pub struct HostConfig {
    /// Bind specifications in the short `source:target` form.
    pub binds: Vec<String>,
    /// The container's mounts.
    pub mounts: Vec<MountSpec>,
    /// The restart policy name, when set.
    pub restart_policy: Option<String>,
    /// The memory limit in bytes, when set.
    pub memory_limit: Option<i64>,
    /// The CPU share weight, when set.
    pub cpu_shares: Option<i64>,
    /// Whether the container runs privileged.
    pub privileged: bool,
    /// The network mode, when set.
    pub network_mode: Option<String>,
}

/// The endpoint configuration of one network the container is attached to.
#[derive(Debug)]
pub struct EndpointConfig {
    /// The name of the network.
    pub network_name: String,
    /// The aliases the container carries on this network.
    pub aliases: Vec<String>,
    /// The fixed IPv4 address on this network, when set.
    pub ipv4_address: Option<String>,
}

/// The result of inspecting a container: the three configuration sections the
/// recreation needs, and the original name and platform.  Each section may be
/// absent in a degenerate inspect result; recreation requires all three.
#[derive(Debug)]
pub struct InspectData {
    /// The process configuration section.
    pub process: Option<ProcessConfig>,
    /// The host configuration section.
    pub host: Option<HostConfig>,
    /// The per-network endpoint configurations.
    pub networks: Option<Vec<EndpointConfig>>,
    /// The container's name, to be reused for the new container.
    pub name: Option<String>,
    /// The container's platform, to be reused for the new container.
    pub platform: Option<String>,
}

/// The merged creation payload: process configuration, host configuration and
/// every network endpoint of the original container.
#[derive(Debug)]
pub struct CreatePayload {
    pub process: ProcessConfig,
    pub host: HostConfig,
    pub endpoints: Vec<EndpointConfig>,
}

/// The full recreate payload for one container: the merged configuration plus
/// the name and platform the new container must be created under.
#[derive(Debug)]
pub struct ContainerConfigSnapshot {
    pub payload: CreatePayload,
    /// The name the new container is created under: the original's, exactly
    /// as the inspect reported it, never regenerated.
    pub name: Option<String>,
    /// The platform the new container is created for: the original's,
    /// exactly as the inspect reported it.
    pub platform: Option<String>,
}

/// Merge the three configuration sections of an inspect result into one
/// creation payload.  Nothing is filtered or rewritten: the payload carries
/// the process configuration, the host configuration and all endpoint
/// configurations exactly as captured.
pub fn merge_create_payload(process: ProcessConfig, host: HostConfig, endpoints: Vec<
    EndpointConfig,
>) -> (r: CreatePayload)
    ensures
        r.process == process,
        r.host == host,
        r.endpoints == endpoints,
{
    CreatePayload { process, host, endpoints }
}

} // verus!
