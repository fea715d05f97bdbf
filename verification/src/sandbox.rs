//! Execution worlds: their kinds, specifications, resource limits and
//! lifecycle states.
//!
//! The CPU limit is an `f64`; it is held here by its IEEE-754 bit pattern.

use vstd::prelude::*;

use crate::outside::Timestamp;

verus! {

/// The kind of execution environment.
#[derive(Debug, Clone, Copy, PartialEq, Eq, Structural, Hash)]
pub enum WorldKind {
    LocalShell,
    WorktreeReadOnly,
    WorktreeReadWrite,
    Container,
    MicroVm,
    BrowserSandbox,
    MobileEmulator,
    RemoteRunner,
}

/// Resource ceilings of a world.
#[derive(Debug, Clone, Copy, PartialEq, Eq, Structural)]
pub struct ResourceLimits {
    /// CPU cores, as the IEEE-754 bits of an `f64`.
    pub cpu_cores_bits: Option<u64>,
    pub memory_mb: Option<u64>,
    pub disk_mb: Option<u64>,
    pub timeout_secs: Option<u64>,
}

impl Default for ResourceLimits {
    /// No limit at all.
    fn default() -> (l: ResourceLimits)
        ensures
            l.cpu_cores_bits is None,
            l.memory_mb is None,
            l.disk_mb is None,
            l.timeout_secs is None,
    {
        ResourceLimits { cpu_cores_bits: None, memory_mb: None, disk_mb: None, timeout_secs: None }
    }
}

/// Specification of a world to allocate.
#[derive(Debug, Clone)]
pub struct WorldSpec {
    pub kind: WorldKind,
    pub image: Option<String>,
    pub root: Option<String>,
    /// Environment variables, as (name, value) pairs.
    pub env: Vec<(String, String)>,
    pub network: bool,
    pub writable: bool,
    pub label: Option<String>,
    pub limits: ResourceLimits,
}

/// Lifecycle status of a world.
#[derive(Debug, Clone, Copy, PartialEq, Eq, Structural, Hash)]
pub enum WorldStatus {
    Provisioning,
    Running,
    Paused,
    Destroying,
    Destroyed,
    Failed,
}

/// Runtime state of a world.
#[derive(Debug, Clone)]
pub struct WorldState {
    pub id: u128,
    pub spec: WorldSpec,
    pub status: WorldStatus,
    pub created_at: Timestamp,
    pub root_path: Option<String>,
}

} // verus!
