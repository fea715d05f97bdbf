//! The stand-in backends of a one-shot run: each answers at once, without
//! touching the machine, the way the harness expects of its subsystem.

use vstd::prelude::*;

use crate::browser::{BrowserAction, BrowserArtifact, BrowserEvidence, BrowserState, BrowserTarget};
use crate::comms::{CommsApprovalPrompt, DeliveryReceipt, Notification};
use crate::eval::{DiffReport, EvalReport, EvalRequest};
use crate::mcp::{McpContent, McpResource, McpToolDescriptor, McpToolResult};
use crate::memory::{MemoryItem, MemoryLayer, MemoryQuery};
use crate::mobile::{DeviceAction, DeviceArtifact, DeviceSpec, DeviceState, DeviceStatus};
use crate::outside::{new_id, now, parse_json_or_null, parsed_json, ExJsonValue};
use crate::sandbox::{ResourceLimits, WorldKind, WorldSpec, WorldState, WorldStatus};
use crate::session::{SessionEvent, SessionMeta, SessionState};
use crate::shell::{ShellCommand, ShellEvent, ShellOutput, ShellSpec, WorktreeHandle, WorktreeSpec};
use crate::tools::{resolve_path, resolved_path, ToolCall, ToolDescriptor, ToolResult};
use crate::trace::TraceEvent;

verus! {

/// A trace sink that keeps nothing.
pub struct StubTraceSink;

impl StubTraceSink {
    /// The events of a session: none.
    pub fn query(&self, session_id: u128) -> (r: Vec<TraceEvent>)
        ensures
            r@.len() == 0,
    {
        Vec::new()
    }

    /// The events of a creature: none.
    pub fn query_creature(&self, session_id: u128, creature_id: u128) -> (r: Vec<TraceEvent>)
        ensures
            r@.len() == 0,
    {
        Vec::new()
    }
}

/// A session store that keeps nothing.
pub struct StubSessionStore;

impl StubSessionStore {
    /// Create a session: a fresh ID.
    pub fn create(&self, meta: SessionMeta) -> u128 {
        new_id()
    }

    /// Take a checkpoint: a fresh ID.
    pub fn snapshot(&self, id: u128) -> u128 {
        new_id()
    }

    /// Fork a session: a fresh ID.
    pub fn fork(&self, id: u128) -> u128 {
        new_id()
    }

    /// Load a session: an inactive `stub` session with no events and no
    /// checkpoints, created now.
    pub fn load(&self, id: u128) -> (s: SessionState)
        ensures
            s.id == id,
            s.meta.label@ == "stub"@,
            s.meta.objective@ == "stub"@,
            s.events@.len() == 0,
            s.checkpoints@.len() == 0,
            !s.active,
    {
        SessionState {
            id,
            meta: SessionMeta {
                label: String::from_str("stub"),
                objective: String::from_str("stub"),
                created_at: now(),
            },
            events: Vec::new(),
            checkpoints: Vec::new(),
            active: false,
        }
    }

    /// The sessions: none.
    pub fn list(&self) -> (r: Vec<u128>)
        ensures
            r@.len() == 0,
    {
        Vec::new()
    }
}

/// A tool router that acknowledges every call and runs nothing.
pub struct StubToolRouter;

impl StubToolRouter {
    /// Call a tool: success, with the output `{"stub": true}` and no evidence.
    pub fn call(&self, req: ToolCall) -> (r: ToolResult)
        ensures
            r.ok,
            r.output == parsed_json("{\"stub\":true}"@),
            r.evidence@.len() == 0,
    {
        ToolResult { ok: true, output: parse_json_or_null("{\"stub\":true}"), evidence: Vec::new() }
    }

    /// The tools: none.
    pub fn list(&self) -> (r: Vec<ToolDescriptor>)
        ensures
            r@.len() == 0,
    {
        Vec::new()
    }

    /// Whether a tool is healthy: always.
    pub fn healthcheck(&self, tool: &str) -> (b: bool)
        ensures
            b,
    {
        true
    }
}

/// A shell manager that runs nothing.
pub struct StubShellManager;

impl StubShellManager {
    /// Spawn a shell: a fresh ID.
    pub fn spawn_shell(&self, spec: ShellSpec) -> u128 {
        new_id()
    }

    /// Run a command: success with no output, at once.
    pub fn exec(&self, shell: u128, cmd: ShellCommand) -> (o: ShellOutput)
        ensures
            o.exit_code == 0,
            o.stdout@.len() == 0,
            o.stderr@.len() == 0,
            o.duration_ms == 0,
    {
        ShellOutput { exit_code: 0, stdout: String::new(), stderr: String::new(), duration_ms: 0 }
    }

    /// A shell's transcript: empty.
    pub fn transcript(&self, shell: u128) -> (r: Vec<ShellEvent>)
        ensures
            r@.len() == 0,
    {
        Vec::new()
    }

    /// Create a worktree: `.chimera-wt-stub` under the repository root, with
    /// a fresh shell, as read-only as asked.
    pub fn create_worktree(&self, spec: WorktreeSpec) -> (h: WorktreeHandle)
        ensures
            h.path@ == resolved_path(".chimera-wt-stub"@, Some(spec.repo_root@)),
            h.read_only == spec.read_only,
    {
        WorktreeHandle {
            path: resolve_path(".chimera-wt-stub", &Some(spec.repo_root.clone())),
            shell_id: new_id(),
            read_only: spec.read_only,
        }
    }

    /// The shells: none.
    pub fn list_shells(&self) -> (r: Vec<u128>)
        ensures
            r@.len() == 0,
    {
        Vec::new()
    }
}

/// A world manager that allocates nothing.
pub struct StubWorldManager;

impl StubWorldManager {
    /// Allocate a world: a fresh ID.
    pub fn allocate(&self, spec: WorldSpec) -> u128 {
        new_id()
    }

    /// Inspect a world: a running local shell with no image, root, variables,
    /// network or write access, no label and no limits, created now.
    pub fn inspect(&self, id: u128) -> (w: WorldState)
        ensures
            w.id == id,
            w.spec.kind == WorldKind::LocalShell,
            w.spec.image is None,
            w.spec.root is None,
            w.spec.env@.len() == 0,
            !w.spec.network,
            !w.spec.writable,
            w.spec.label is None,
            w.spec.limits == (ResourceLimits {
                cpu_cores_bits: None,
                memory_mb: None,
                disk_mb: None,
                timeout_secs: None,
            }),
            w.status == WorldStatus::Running,
            w.root_path is None,
    {
        WorldState {
            id,
            spec: WorldSpec {
                kind: WorldKind::LocalShell,
                image: None,
                root: None,
                env: Vec::new(),
                network: false,
                writable: false,
                label: None,
                limits: ResourceLimits::default(),
            },
            status: WorldStatus::Running,
            created_at: now(),
            root_path: None,
        }
    }

    /// The worlds: none.
    pub fn list(&self) -> (r: Vec<u128>)
        ensures
            r@.len() == 0,
    {
        Vec::new()
    }
}

/// A browser controller that opens nothing.
pub struct StubBrowserController;

impl StubBrowserController {
    /// Open a session: a fresh ID.
    pub fn open(&self, target: BrowserTarget) -> u128 {
        new_id()
    }

    /// Act in a session: acknowledged.
    pub fn act(&self, session: u128, action: BrowserAction) -> (a: BrowserArtifact)
        ensures
            a is Ack,
    {
        BrowserArtifact::Ack
    }

    /// A screenshot: the stub screenshot, captured now.
    pub fn screenshot(&self, session: u128) -> (e: BrowserEvidence)
        ensures
            e.kind@ == "screenshot"@,
            e.uri@ == "stub://screenshot.png"@,
            e.label@ == "stub screenshot"@,
    {
        BrowserEvidence {
            kind: String::from_str("screenshot"),
            uri: String::from_str("stub://screenshot.png"),
            label: String::from_str("stub screenshot"),
            captured_at: now(),
        }
    }

    /// A session's state: active on a blank page titled `Stub`, opened now.
    pub fn state(&self, session: u128) -> (s: BrowserState)
        ensures
            s.id == session,
            s.current_url@ == "about:blank"@,
            s.title@ == "Stub"@,
            s.active,
    {
        BrowserState {
            id: session,
            current_url: String::from_str("about:blank"),
            title: String::from_str("Stub"),
            active: true,
            opened_at: now(),
        }
    }

    /// The sessions: none.
    pub fn list_sessions(&self) -> (r: Vec<u128>)
        ensures
            r@.len() == 0,
    {
        Vec::new()
    }
}

/// A mobile controller that boots nothing.
pub struct StubMobileController;

impl StubMobileController {
    /// Boot a device: a fresh ID.
    pub fn boot(&self, spec: DeviceSpec) -> u128 {
        new_id()
    }

    /// Perform an action: acknowledged.
    pub fn perform(&self, id: u128, action: DeviceAction) -> (a: DeviceArtifact)
        ensures
            a is Ack,
    {
        DeviceArtifact::Ack
    }

    /// A device's state: a running `stub` device without network, booted now.
    pub fn state(&self, id: u128) -> (d: DeviceState)
        ensures
            d.id == id,
            d.spec.profile@ == "stub"@,
            d.spec.os_version is None,
            !d.spec.network,
            d.spec.label is None,
            d.status == DeviceStatus::Running,
            d.booted_at is Some,
    {
        DeviceState {
            id,
            spec: DeviceSpec { profile: String::from_str("stub"), os_version: None, network: false, label: None },
            status: DeviceStatus::Running,
            booted_at: Some(now()),
        }
    }

    /// The devices: none.
    pub fn list_devices(&self) -> (r: Vec<u128>)
        ensures
            r@.len() == 0,
    {
        Vec::new()
    }
}

/// A comms bridge that sends nothing and approves everything.
pub struct StubCommsBridge;

impl StubCommsBridge {
    /// Send a notification: a fresh ID.
    pub fn notify(&self, msg: Notification) -> u128 {
        new_id()
    }

    /// Request an approval: a fresh ID.
    pub fn request_approval(&self, prompt: CommsApprovalPrompt) -> u128 {
        new_id()
    }

    /// The answer to an approval: approved.
    pub fn check_approval(&self, id: u128) -> (r: Option<bool>)
        ensures
            r == Some(true),
    {
        Some(true)
    }

    /// The receipt of a notification: none.
    pub fn receipt(&self, id: u128) -> (r: Option<DeliveryReceipt>)
        ensures
            r is None,
    {
        None
    }
}

/// A memory store that keeps nothing.
pub struct StubMemoryStore;

impl StubMemoryStore {
    /// Store an item: gives its ID.
    pub fn remember(&self, item: MemoryItem) -> (id: u128)
        ensures
            id == item.id,
    {
        item.id
    }

    /// Retrieve items: none.
    pub fn retrieve(&self, query: MemoryQuery) -> (r: Vec<MemoryItem>)
        ensures
            r@.len() == 0,
    {
        Vec::new()
    }

    /// Compact a layer: nothing removed.
    pub fn compact(&self, layer: MemoryLayer) -> (n: u64)
        ensures
            n == 0,
    {
        0
    }
}

/// The IEEE-754 bits of the `f64` 1.0.
pub const ONE_BITS: u64 = 0x3ff0_0000_0000_0000;

/// An evaluator that passes everything.
pub struct StubEvaluator;

impl StubEvaluator {
    /// Grade a request: passed with score 1.0 and no grades, completed now.
    pub fn grade(&self, req: EvalRequest) -> (r: EvalReport)
        ensures
            r.name == req.name,
            r.passed,
            r.score_bits == ONE_BITS,
            r.grades@.len() == 0,
    {
        EvalReport { name: req.name, passed: true, score_bits: ONE_BITS, grades: Vec::new(), completed_at: now() }
    }

    /// Compare two checkpoints: no change and no regression.
    pub fn compare(&self, a: u128, b: u128) -> (r: DiffReport)
        ensures
            r.checkpoint_a == a,
            r.checkpoint_b == b,
            r.files_changed@.len() == 0,
            r.summary@ == "no changes (stub)"@,
            !r.regression_detected,
    {
        DiffReport {
            checkpoint_a: a,
            checkpoint_b: b,
            files_changed: Vec::new(),
            summary: String::from_str("no changes (stub)"),
            regression_detected: false,
        }
    }
}

/// An MCP client with no server behind it.
pub struct StubMcpClient;

impl StubMcpClient {
    /// The tools of a server: none.
    pub fn list_tools(&self, server: &str) -> (r: Vec<McpToolDescriptor>)
        ensures
            r@.len() == 0,
    {
        Vec::new()
    }

    /// Invoke a tool: one text answer, `stub result`.
    pub fn invoke(&self, server: &str, tool: &str, args: serde_json::Value) -> (r: McpToolResult)
        ensures
            !r.is_error,
            r.content@.len() == 1,
            r.content@[0] matches McpContent::Text { text } && text@ == "stub result"@,
    {
        let mut content: Vec<McpContent> = Vec::new();
        content.push(McpContent::Text { text: String::from_str("stub result") });
        McpToolResult { is_error: false, content }
    }

    /// The resources of a server: none.
    pub fn list_resources(&self, server: &str) -> (r: Vec<McpResource>)
        ensures
            r@.len() == 0,
    {
        Vec::new()
    }

    /// Read a resource: empty text.
    pub fn read_resource(&self, server: &str, uri: &str) -> (c: McpContent)
        ensures
            c matches McpContent::Text { text } && text@.len() == 0,
    {
        McpContent::Text { text: String::new() }
    }

    /// Whether a server answers: always.
    pub fn ping(&self, server: &str) -> (b: bool)
        ensures
            b,
    {
        true
    }
}

} // verus!
