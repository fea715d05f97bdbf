use chimera::comms::{Channel, CommsApprovalPrompt, MockCommsBridge, Notification, Priority};
use chimera::config::{config_dir, config_file_path, Config, EnvOverrides, ProviderConfig};
use chimera::llm::{LlmError, Message, OpenAiCompatibleProvider, Role, StreamDelta, Usage};
use chimera::mcp::{McpContent, MockMcpClient};
use chimera::memory::{f64_bits_lt, InMemoryStore, MemoryItem, MemoryLayer, MemoryQuery};
use chimera::mobile::{DeviceAction, DeviceArtifact, DeviceSpec, DeviceStatus, MockMobileController};
use chimera::outside::Timestamp;
use chimera::sandbox::ResourceLimits;
use chimera::session::{new_session, session_file, FileSessionStore, SessionEvent, SessionMeta};
use chimera::shell::{plan_worktree, timed_out, timeout_of, ShellCommand, ShellEvent, ShellOutput, ShellRegistry, ShellSpec, WorktreeSpec};
use chimera::stream::{SseDecoder, StreamAccumulator, StreamChunk, ToolCallChunk};
use chimera::text::uuid_string;
use chimera::tools::{
    builtin_descriptors, healthcheck, plan_edit, resolve_path, route, truncate_to, BuiltinTool, EditPlan,
    ToolCall,
};
use chimera::trace::{event_lines_of, events_of_creature, TraceBuffer, TraceEvent, TraceFiles, TraceLevel};

// ── Comms ────────────────────────────────────────────────────────

fn make_notification(subject: &str) -> Notification {
    Notification {
        channel: Channel::Terminal,
        priority: Priority::Normal,
        subject: subject.into(),
        body: format!("body of {}", subject),
        metadata: None,
    }
}

#[test]
fn notify_stores_message() {
    let mut bridge = MockCommsBridge::new();
    let id = bridge.notify(make_notification("test alert"));
    let receipt = bridge.receipt(id);
    assert!(receipt.is_some());
    let receipt = receipt.unwrap();
    assert!(receipt.acknowledged);
    assert_eq!(receipt.message_id, id);
}

#[test]
fn request_approval_starts_pending() {
    let mut bridge = MockCommsBridge::new();
    let prompt = CommsApprovalPrompt {
        channel: Channel::Slack { channel: "#ops".into() },
        actor: "MANTIS-1".into(),
        class: "yellow".into(),
        action: "modify 6 files".into(),
        reason: "extract auth kernel".into(),
        touched_resources: vec!["src/auth.rs".into()],
    };
    let id = bridge.request_approval(prompt);
    assert_eq!(bridge.check_approval(id), None);
}

#[test]
fn approval_can_be_answered() {
    let mut bridge = MockCommsBridge::new();
    let prompt = CommsApprovalPrompt {
        channel: Channel::Terminal,
        actor: "OWL-1".into(),
        class: "green".into(),
        action: "analyze".into(),
        reason: "evaluation".into(),
        touched_resources: vec![],
    };
    let id = bridge.request_approval(prompt);
    bridge.answer_approval(id, true);
    assert_eq!(bridge.check_approval(id), Some(true));
    bridge.answer_approval(id, false);
    assert_eq!(bridge.check_approval(id), Some(false));
}

#[test]
fn receipt_returns_none_for_unknown() {
    let bridge = MockCommsBridge::new();
    assert!(bridge.receipt(new_id()).is_none());
}

// ── Config ───────────────────────────────────────────────────────

#[test]
fn default_config_has_sensible_values() {
    let c = Config::default();
    assert_eq!(c.provider.name, "openai");
    assert_eq!(c.provider.model, "gpt-4o-mini");
    assert_eq!(f32::from_bits(c.provider.temperature_bits), 0.0);
    assert_eq!(c.provider.max_tokens, 8192);
    assert_eq!(c.agent.max_iterations, 40);
}

fn no_overrides() -> EnvOverrides {
    EnvOverrides {
        provider: None,
        base_url: None,
        api_key: None,
        model: None,
        temperature_bits: None,
        max_tokens: None,
        max_iterations: None,
        openai_api_key: None,
    }
}

#[test]
fn apply_env_overrides_values() {
    let mut c = Config::default();
    let env = EnvOverrides {
        model: Some("test-model-xyz".into()),
        max_tokens: Some("1234".into()),
        temperature_bits: Some(0.7f32.to_bits()),
        ..no_overrides()
    };
    c.apply_env(&env);
    assert_eq!(c.provider.model, "test-model-xyz");
    assert_eq!(c.provider.max_tokens, 1234);
    assert!((f32::from_bits(c.provider.temperature_bits) - 0.7).abs() < 1e-6);
}

#[test]
fn apply_env_ignores_numbers_that_do_not_parse() {
    let mut c = Config::default();
    let env = EnvOverrides {
        max_tokens: Some("lots".into()),
        max_iterations: Some("7".into()),
        ..no_overrides()
    };
    c.apply_env(&env);
    assert_eq!(c.provider.max_tokens, 8192);
    assert_eq!(c.agent.max_iterations, 7);
}

#[test]
fn apply_env_falls_back_to_the_openai_key() {
    let mut c = Config::default();
    let env = EnvOverrides { openai_api_key: Some("sk-fallback".into()), ..no_overrides() };
    c.apply_env(&env);
    assert_eq!(c.provider.api_key, "sk-fallback");
    let env = EnvOverrides {
        api_key: Some("own".into()),
        openai_api_key: Some("other".into()),
        ..no_overrides()
    };
    c.apply_env(&env);
    assert_eq!(c.provider.api_key, "own");
}

#[test]
fn build_provider_constructs_openai_compatible() {
    let c = Config {
        provider: ProviderConfig {
            name: "test".to_string(),
            base_url: "https://example.test/v1/".to_string(),
            api_key: "k".to_string(),
            ..Default::default()
        },
        ..Default::default()
    };
    let p = c.build_provider(reqwest::Client::new());
    assert_eq!(p.name(), "test");
    assert_eq!(p.base_url(), "https://example.test/v1");
    assert_eq!(p.chat_url(), "https://example.test/v1/chat/completions");
}

#[test]
fn missing_api_key_spares_local_endpoints() {
    let mut c = Config::default();
    assert!(c.missing_api_key());
    c.provider.base_url = "http://localhost:11434/v1".into();
    assert!(!c.missing_api_key());
    c.provider.base_url = "https://api.openai.com/v1".into();
    c.provider.api_key = "sk".into();
    assert!(!c.missing_api_key());
}

#[test]
fn config_paths_follow_home_and_override() {
    assert_eq!(config_dir(&Some("/home/u".into())), Some("/home/u/.chimera".to_string()));
    assert_eq!(config_dir(&None), None);
    assert_eq!(
        config_file_path(&None, &Some("/home/u/".into())),
        Some("/home/u/.chimera/config.json".to_string())
    );
    assert_eq!(
        config_file_path(&Some("/etc/c.json".into()), &Some("/home/u".into())),
        Some("/etc/c.json".to_string())
    );
}

// ── LLM ──────────────────────────────────────────────────────────

#[test]
fn message_constructors_are_correct() {
    let s = Message::system("be helpful");
    assert_eq!(s.role, Role::System);
    assert_eq!(s.content.as_deref(), Some("be helpful"));
    let u = Message::user("hi");
    assert_eq!(u.role, Role::User);
    let a = Message::assistant_with_tools(Some("thinking".into()), vec![]);
    assert_eq!(a.role, Role::Assistant);
    let t = Message::tool_result("call_1", "42");
    assert_eq!(t.role, Role::Tool);
    assert_eq!(t.tool_call_id.as_deref(), Some("call_1"));
}

#[test]
fn llm_error_retryable_classification() {
    let e = LlmError::Provider { status: 500, body: "x".into() };
    assert!(e.is_retryable());
    let e2 = LlmError::Provider { status: 400, body: "x".into() };
    assert!(!e2.is_retryable());
    let e3 = LlmError::Provider { status: 429, body: "rate".into() };
    assert!(e3.is_retryable());
    assert!(LlmError::Network("down".into()).is_retryable());
    assert!(!LlmError::StreamEnd.is_retryable());
}

#[test]
fn llm_error_messages() {
    let e = LlmError::Provider { status: 503, body: "busy".into() };
    assert_eq!(e.message(), "provider returned status 503: busy");
    assert_eq!(LlmError::StreamEnd.message(), "stream ended unexpectedly");
}

#[test]
fn provider_trims_trailing_slashes() {
    let p = OpenAiCompatibleProvider::new("n", "http://h//", "k", reqwest::Client::new());
    assert_eq!(p.base_url(), "http://h");
    assert_eq!(p.api_key(), "k");
}

// ── MCP ──────────────────────────────────────────────────────────

#[test]
fn list_tools_returns_registered() {
    let client = MockMcpClient::new();
    let tools = client.list_tools("test-server");
    assert_eq!(tools.len(), 2);
    assert_eq!(tools[0].name, "search");
    assert_eq!(tools[1].name, "read_file");
}

#[test]
fn invoke_returns_result() {
    let client = MockMcpClient::new();
    let result = client.invoke("test-server", "search", j(r#"{"query": "auth"}"#));
    assert!(!result.is_error);
    assert_eq!(result.content.len(), 1);
    match &result.content[0] {
        McpContent::Text { text } => {
            assert!(text.contains("search"));
            assert_eq!(text, r#"result of search({"query":"auth"})"#);
        }
        _ => panic!("expected text content"),
    }
}

#[test]
fn list_resources_returns_registered() {
    let client = MockMcpClient::new();
    let resources = client.list_resources("test-server");
    assert_eq!(resources.len(), 1);
    assert_eq!(resources[0].uri, "file:///README.md");
}

#[test]
fn read_resource_returns_content() {
    let client = MockMcpClient::new();
    match client.read_resource("test-server", "file:///README.md") {
        McpContent::Text { text } => assert!(text.contains("README.md")),
        _ => panic!("expected text content"),
    }
}

#[test]
fn ping_returns_true() {
    let client = MockMcpClient::new();
    assert!(client.ping("test-server"));
}

// ── Memory ───────────────────────────────────────────────────────

fn make_item(key: &str, layer: MemoryLayer, relevance: f64) -> MemoryItem {
    let t = now();
    MemoryItem {
        id: new_id(),
        layer,
        key: key.into(),
        content: format!("content for {}", key),
        metadata: j(r#"{}"#),
        created_at: t,
        last_accessed: t,
        session_id: None,
        creature_id: None,
        relevance_bits: relevance.to_bits(),
    }
}

#[test]
fn remember_and_retrieve() {
    let mut store = InMemoryStore::new();
    let id = store.remember(make_item("auth-pattern", MemoryLayer::Episodic, 0.9));
    let results = store.retrieve(&MemoryQuery { layer: Some(MemoryLayer::Episodic), ..Default::default() });
    assert_eq!(results.len(), 1);
    assert_eq!(results[0].id, id);
    assert_eq!(results[0].key, "auth-pattern");
}

#[test]
fn retrieve_filters_by_layer() {
    let mut store = InMemoryStore::new();
    store.remember(make_item("a", MemoryLayer::Scratch, 0.5));
    store.remember(make_item("b", MemoryLayer::Episodic, 0.8));
    store.remember(make_item("c", MemoryLayer::Scratch, 0.6));
    let results = store.retrieve(&MemoryQuery { layer: Some(MemoryLayer::Scratch), ..Default::default() });
    assert_eq!(results.len(), 2);
}

#[test]
fn retrieve_filters_by_relevance() {
    let mut store = InMemoryStore::new();
    store.remember(make_item("low", MemoryLayer::Episodic, 0.3));
    store.remember(make_item("high", MemoryLayer::Episodic, 0.9));
    let results = store.retrieve(&MemoryQuery { min_relevance_bits: Some(0.5f64.to_bits()), ..Default::default() });
    assert_eq!(results.len(), 1);
    assert_eq!(results[0].key, "high");
}

#[test]
fn retrieve_text_search() {
    let mut store = InMemoryStore::new();
    store.remember(make_item("auth", MemoryLayer::Episodic, 0.8));
    store.remember(make_item("db-migration", MemoryLayer::Episodic, 0.7));
    let results = store.retrieve(&MemoryQuery { query: Some("auth".into()), ..Default::default() });
    assert_eq!(results.len(), 1);
    assert_eq!(results[0].key, "auth");
}

#[test]
fn retrieve_respects_the_limit() {
    let mut store = InMemoryStore::new();
    for i in 0..5 {
        store.remember(make_item(&format!("k{i}"), MemoryLayer::Scratch, 0.5));
    }
    let results = store.retrieve(&MemoryQuery { limit: 3, ..Default::default() });
    let keys: Vec<&str> = results.iter().map(|r| r.key.as_str()).collect();
    assert_eq!(keys, vec!["k0", "k1", "k2"]);
}

#[test]
fn forget_removes_item() {
    let mut store = InMemoryStore::new();
    let id = store.remember(make_item("temp", MemoryLayer::Scratch, 0.5));
    store.forget(id);
    assert!(store.retrieve(&MemoryQuery::default()).is_empty());
}

#[test]
fn compact_removes_layer() {
    let mut store = InMemoryStore::new();
    store.remember(make_item("a", MemoryLayer::Scratch, 0.5));
    store.remember(make_item("b", MemoryLayer::Scratch, 0.6));
    store.remember(make_item("c", MemoryLayer::Episodic, 0.9));
    assert_eq!(store.compact(MemoryLayer::Scratch), 2);
    let results = store.retrieve(&MemoryQuery::default());
    assert_eq!(results.len(), 1);
    assert_eq!(results[0].key, "c");
}

#[test]
fn f64_bits_order_like_floats() {
    let cases = [(0.3, 0.5), (0.5, 0.3), (-1.0, 0.0), (0.0, -0.0), (-2.0, -1.0), (1.0, 1.0)];
    for (a, b) in cases {
        assert_eq!(f64_bits_lt(f64::to_bits(a), f64::to_bits(b)), a < b, "{a} < {b}");
    }
    assert!(!f64_bits_lt(f64::NAN.to_bits(), 1.0f64.to_bits()));
    assert!(!f64_bits_lt(1.0f64.to_bits(), f64::NAN.to_bits()));
}

// ── Mobile ───────────────────────────────────────────────────────

fn pixel_spec() -> DeviceSpec {
    DeviceSpec {
        profile: "pixel8".into(),
        os_version: Some("34".into()),
        network: true,
        label: Some("test-device".into()),
    }
}

#[test]
fn boot_creates_running_device() {
    let mut ctrl = MockMobileController::new();
    let id = ctrl.boot(pixel_spec());
    let state = ctrl.state(id).unwrap();
    assert_eq!(state.status, DeviceStatus::Running);
    assert_eq!(state.spec.profile, "pixel8");
    assert!(state.booted_at.is_some());
}

#[test]
fn perform_screenshot() {
    let mut ctrl = MockMobileController::new();
    let id = ctrl.boot(pixel_spec());
    match ctrl.perform(id, DeviceAction::Screenshot).unwrap() {
        DeviceArtifact::Screenshot { uri, .. } => assert!(uri.contains("screenshot")),
        _ => panic!("expected screenshot artifact"),
    }
}

#[test]
fn perform_shell_command() {
    let mut ctrl = MockMobileController::new();
    let id = ctrl.boot(pixel_spec());
    match ctrl.perform(id, DeviceAction::ShellCommand { command: "ls /".into() }).unwrap() {
        DeviceArtifact::ShellOutput { stdout, exit_code, .. } => {
            assert!(stdout.contains("ls /"));
            assert_eq!(exit_code, 0);
        }
        _ => panic!("expected shell output"),
    }
}

#[test]
fn perform_on_unknown_device_fails() {
    let ctrl = MockMobileController::new();
    let id = new_id();
    let err = ctrl.perform(id, DeviceAction::Screenshot).unwrap_err();
    assert_eq!(err.message(), format!("device not found: {}", uuid_string(id)));
}

#[test]
fn shutdown_sets_off() {
    let mut ctrl = MockMobileController::new();
    let id = ctrl.boot(pixel_spec());
    ctrl.shutdown(id).unwrap();
    assert_eq!(ctrl.state(id).unwrap().status, DeviceStatus::Off);
}

#[test]
fn list_devices_tracks_booted() {
    let mut ctrl = MockMobileController::new();
    assert!(ctrl.list_devices().is_empty());
    let id1 = ctrl.boot(pixel_spec());
    let id2 = ctrl.boot(pixel_spec());
    let devices = ctrl.list_devices();
    assert_eq!(devices.len(), 2);
    assert!(devices.contains(&id1));
    assert!(devices.contains(&id2));
}

#[test]
fn mock_mobile_controller_default() {
    let ctrl = MockMobileController::default();
    assert!(ctrl.list_devices().is_empty());
}

#[test]
fn shutdown_unknown_device_fails() {
    let mut ctrl = MockMobileController::new();
    assert!(ctrl.shutdown(new_id()).is_err());
}

// ── Sandbox ──────────────────────────────────────────────────────

#[test]
fn resource_limits_default() {
    let limits = ResourceLimits::default();
    assert!(limits.cpu_cores_bits.is_none());
    assert!(limits.memory_mb.is_none());
    assert!(limits.disk_mb.is_none());
    assert!(limits.timeout_secs.is_none());
}

// ── Sessions ─────────────────────────────────────────────────────

fn sample_meta() -> SessionMeta {
    SessionMeta { label: "test".to_string(), objective: "do the thing".to_string(), created_at: now() }
}

#[test]
fn create_append_load_roundtrip() {
    let mut state = new_session(sample_meta());
    state.append_event(SessionEvent::TaskAdded { description: "step1".to_string() });
    assert_eq!(state.events.len(), 2);
    assert!(matches!(state.events[0], SessionEvent::Created { .. }));
    assert!(state.active);
}

#[test]
fn snapshot_records_checkpoint() {
    let mut state = new_session(sample_meta());
    let cp = state.snapshot();
    assert!(state.checkpoints.contains(&cp));
    assert!(matches!(state.events.last(), Some(SessionEvent::Checkpointed { checkpoint_id }) if *checkpoint_id == cp));
}

#[test]
fn fork_inherits_and_marks() {
    let mut parent = new_session(sample_meta());
    parent.snapshot();
    let child = parent.fork();
    assert_ne!(parent.id, child.id);
    assert_eq!(child.checkpoints, parent.checkpoints);
    assert_eq!(child.events.len(), parent.events.len() + 1);
    assert!(child.events.iter().any(
        |e| matches!(e, SessionEvent::Forked { parent_id: p, child_id: c } if *p == parent.id && *c == child.id)
    ));
}

#[test]
fn list_returns_created_sessions() {
    let a = new_id();
    let b = new_id();
    let names = vec![
        format!("{}.json", uuid_string(a)),
        "notes.txt".to_string(),
        format!("{}.json", uuid_string(b)),
        "broken.json".to_string(),
    ];
    let ids = FileSessionStore::sessions_in(&names);
    assert_eq!(ids, vec![a, b]);
}

#[test]
fn list_on_empty_dir_returns_empty() {
    assert!(FileSessionStore::sessions_in(&vec![]).is_empty());
}

#[test]
fn session_files_are_named_by_uuid() {
    let store = FileSessionStore::new("/work");
    assert_eq!(store.sessions_dir(), "/work/.chimera/sessions");
    let id = new_id();
    assert_eq!(store.session_path(id), format!("/work/.chimera/sessions/{}.json", uuid_string(id)));
    assert_eq!(session_file("67e55044-10b1-426f-9247-bb680e5fe0c8.json"), Some(0x67e5504410b1426f9247bb680e5fe0c8));
    assert_eq!(session_file("67e5504410b1426f9247bb680e5fe0c8.json"), Some(0x67e5504410b1426f9247bb680e5fe0c8));
    assert_eq!(session_file("67e55044-10b1-426f-9247-bb680e5fe0c8.txt"), None);
}

#[test]
fn uuid_string_is_hyphenated_lowercase() {
    assert_eq!(uuid_string(0x67e5504410b1426f9247bb680e5fe0c8), "67e55044-10b1-426f-9247-bb680e5fe0c8");
}

// ── Shells ───────────────────────────────────────────────────────

fn spec(read_only: bool) -> ShellSpec {
    ShellSpec { cwd: "/tmp".into(), env: vec![], read_only, label: None }
}

#[test]
fn spawn_exec_and_list() {
    let mut reg = ShellRegistry::new();
    let id = reg.spawn_shell(spec(false));
    assert!(reg.prepare_exec(id).is_ok());
    let out = ShellOutput { exit_code: 0, stdout: "hello-chimera\n".into(), stderr: String::new(), duration_ms: 3 };
    reg.record_exec(id, ShellCommand { command: "echo hello-chimera".into(), timeout_secs: Some(10) }, out);
    assert!(reg.list_shells().contains(&id));
}

#[test]
fn read_only_shell_rejects_exec() {
    let mut reg = ShellRegistry::new();
    let id = reg.spawn_shell(spec(true));
    let err = reg.prepare_exec(id).unwrap_err();
    assert_eq!(err.message(), format!("shell {} is read-only; command rejected", uuid_string(id)));
    assert!(reg.prepare_exec(new_id()).is_err());
}

#[test]
fn transcript_records_events() {
    let mut reg = ShellRegistry::new();
    let id = reg.spawn_shell(ShellSpec { label: Some("t".into()), ..spec(false) });
    let out = ShellOutput { exit_code: 0, stdout: String::new(), stderr: String::new(), duration_ms: 1 };
    reg.record_exec(id, ShellCommand { command: "true".into(), timeout_secs: Some(5) }, out);
    let events = reg.transcript(id).unwrap();
    assert_eq!(events.len(), 2);
    assert!(matches!(events[0], ShellEvent::Spawned { .. }));
    assert!(matches!(events[1], ShellEvent::CommandExecuted { .. }));
}

#[test]
fn close_records_the_closing() {
    let mut reg = ShellRegistry::new();
    let id = reg.spawn_shell(spec(false));
    let other = reg.spawn_shell(spec(false));
    reg.close(id);
    assert!(!reg.list_shells().contains(&id));
    assert_eq!(reg.list_shells(), vec![other]);
    let events = reg.transcript(id).unwrap();
    assert!(matches!(events.last(), Some(ShellEvent::Closed { .. })));
    assert!(reg.transcript(new_id()).is_err());
}

#[test]
fn timeouts_default_to_two_minutes() {
    assert_eq!(timeout_of(&ShellCommand { command: "x".into(), timeout_secs: None }), 120);
    assert_eq!(timeout_of(&ShellCommand { command: "x".into(), timeout_secs: Some(5) }), 5);
    let o = timed_out(5, 5001);
    assert_eq!(o.exit_code, 124);
    assert_eq!(o.stderr, "command timed out after 5s");
}

#[test]
fn worktree_plan_names_directory_and_branch() {
    let p = plan_worktree(&WorktreeSpec { repo_root: "/repo".into(), branch: None, read_only: false, label: None });
    assert!(p.path.starts_with("/repo/.chimera/worktrees/"));
    assert_eq!(p.path.len(), "/repo/.chimera/worktrees/".len() + 32);
    assert!(p.new_branch.starts_with("chimera-"));
    assert_eq!(p.base, "HEAD");
}

// ── Tools ────────────────────────────────────────────────────────

#[test]
fn list_returns_all_tools() {
    let descs = builtin_descriptors();
    let names: Vec<&str> = descs.iter().map(|d| d.name.as_str()).collect();
    for expected in ["read_file", "write_file", "edit_file", "bash", "glob", "grep", "git_status"] {
        assert!(names.contains(&expected), "missing tool: {expected}");
    }
    assert_eq!(BuiltinTool::all().len(), 7);
}

#[test]
fn healthcheck_recognizes_registered() {
    assert!(healthcheck("bash"));
    assert!(!healthcheck("nope"));
}

#[test]
fn edit_file_replaces_unique() {
    match plan_edit("foo bar foo", "bar", "baz") {
        EditPlan::Replaced(s) => assert_eq!(s, "foo baz foo"),
        _ => panic!("expected a replacement"),
    }
}

#[test]
fn edit_file_errors_on_non_unique() {
    assert!(matches!(plan_edit("x x", "x", "y"), EditPlan::NotUnique(2)));
    assert!(matches!(plan_edit("abc", "z", "y"), EditPlan::NotFound));
}

#[test]
fn route_maps_names_to_tools() {
    let call = |t: &str| ToolCall { tool: t.into(), args: j(r#"{}"#), world: None, requested_by: 1 };
    assert_eq!(route(&call("grep")).unwrap(), BuiltinTool::Grep);
    let err = route(&call("teleport")).unwrap_err();
    assert_eq!(err.message(), "unknown tool: teleport");
}

#[test]
fn paths_resolve_against_the_root() {
    assert_eq!(resolve_path("a.txt", &Some("/r".into())), "/r/a.txt");
    assert_eq!(resolve_path("a.txt", &Some("/r/".into())), "/r/a.txt");
    assert_eq!(resolve_path("/abs", &Some("/r".into())), "/abs");
    assert_eq!(resolve_path("a.txt", &None), "a.txt");
}

#[test]
fn truncate_keeps_short_text() {
    let mut s = String::from("hello");
    truncate_to(&mut s, 10);
    assert_eq!(s, "hello");
    let mut s = String::from("hello world");
    truncate_to(&mut s, 5);
    assert_eq!(s, "hello\n[truncated: 5 bytes]");
}

// ── Traces ───────────────────────────────────────────────────────

fn sample_event(session: u128, creature: Option<u128>) -> TraceEvent {
    TraceEvent {
        timestamp: now(),
        level: TraceLevel::Info,
        session_id: session,
        creature_id: creature,
        span: "test".to_string(),
        message: "hello".to_string(),
        fields: j(r#"{}"#),
    }
}

#[test]
fn emit_and_query_roundtrip() {
    let mut buf = TraceBuffer::new();
    let sid = new_id();
    buf.record(sample_event(sid, None));
    buf.record(sample_event(sid, None));
    buf.record(sample_event(new_id(), None));
    assert_eq!(buf.cached(sid).unwrap().len(), 2);
}

#[test]
fn mirror_keeps_each_session_in_order() {
    let mut buf = TraceBuffer::new();
    let a: u128 = 1;
    let b: u128 = 2;
    let mut first = sample_event(a, None);
    first.message = "first".to_string();
    let mut second = sample_event(a, None);
    second.message = "second".to_string();
    buf.record(first);
    buf.record(sample_event(b, None));
    buf.record(second);
    let held = buf.cached(a).unwrap();
    assert_eq!(held.len(), 2);
    assert_eq!(held[0].message, "first");
    assert_eq!(held[1].message, "second");
    assert_eq!(buf.cached(b).unwrap().len(), 1);
    assert!(buf.cached(3).is_none());
}

#[test]
fn query_creature_filters() {
    let sid = new_id();
    let c1 = new_id();
    let c2 = new_id();
    let events = vec![sample_event(sid, Some(c1)), sample_event(sid, Some(c2)), sample_event(sid, Some(c1))];
    assert_eq!(events_of_creature(events.clone(), c1).len(), 2);
    assert_eq!(events_of_creature(events, c2).len(), 1);
}

#[test]
fn appended_event_line_is_read_back() {
    let before = "{\"a\":1}\n".to_string();
    let after = before.clone() + "{\"b\":2}" + "\n";
    let mut expected = event_lines_of(&before);
    expected.push("{\"b\":2}".to_string());
    assert_eq!(event_lines_of(&after), expected);
    assert_eq!(event_lines_of(&("".to_string() + "{}\n")), vec!["{}".to_string()]);
}

#[test]
fn persists_across_instances() {
    let text = "{\"a\":1}\n\n  \n{\"b\":2}\r\n";
    assert_eq!(event_lines_of(text), vec!["{\"a\":1}".to_string(), "{\"b\":2}".to_string()]);
}

#[test]
fn query_empty_session_returns_empty() {
    let buf = TraceBuffer::new();
    assert!(buf.cached(new_id()).is_none());
}

#[test]
fn trace_files_are_named_by_session() {
    let files = TraceFiles::new("/w");
    assert_eq!(files.traces_dir(), "/w/.chimera/traces");
    let id = 0x67e5504410b1426f9247bb680e5fe0c8;
    assert_eq!(files.trace_path(id), "/w/.chimera/traces/67e55044-10b1-426f-9247-bb680e5fe0c8.jsonl");
}

// ── Streaming ────────────────────────────────────────────────────

#[test]
fn sse_decoder_splits_payloads_across_pushes() {
    let mut d = SseDecoder::new();
    assert!(d.push_text("data: {\"a\"").is_empty());
    let ps = d.push_text(":1}\n\ndata: [DONE]\nevent: x\ndata: two\n");
    assert_eq!(ps, vec!["{\"a\":1}".to_string(), "two".to_string()]);
    let ps = d.push_bytes(b"data: three\r\n");
    assert_eq!(ps, vec!["three".to_string()]);
}

fn chunk(content: Option<&str>, calls: Vec<ToolCallChunk>, finish: Option<&str>) -> StreamChunk {
    StreamChunk {
        finish_reason: finish.map(|s| s.to_string()),
        content: content.map(|s| s.to_string()),
        tool_calls: calls,
        usage: None,
    }
}

#[test]
fn accumulator_assembles_text_and_calls() {
    let mut acc = StreamAccumulator::new();
    acc.apply(chunk(Some("Hel"), vec![], None));
    acc.apply(chunk(Some("lo"), vec![], None));
    acc.apply(chunk(
        None,
        vec![ToolCallChunk { index: 0, id: Some("c1".into()), name: Some("bash".into()), arguments: Some("{\"com".into()) }],
        None,
    ));
    acc.apply(chunk(
        None,
        vec![ToolCallChunk { index: 0, id: None, name: None, arguments: Some("mand\":\"ls\"}".into()) }],
        None,
    ));
    let mut last = chunk(None, vec![], Some("tool_calls"));
    last.usage = Some(Usage { prompt_tokens: 3, completion_tokens: 4, total_tokens: 7 });
    acc.apply(last);
    let deltas = acc.finish();
    assert_eq!(deltas.len(), 4);
    assert!(matches!(&deltas[0], StreamDelta::Text(t) if t == "Hel"));
    assert!(matches!(&deltas[1], StreamDelta::Text(t) if t == "lo"));
    match &deltas[2] {
        StreamDelta::ToolCall(tc) => {
            assert_eq!(tc.id, "c1");
            assert_eq!(tc.kind, "function");
            assert_eq!(tc.function.name, "bash");
            assert_eq!(tc.function.arguments, "{\"command\":\"ls\"}");
        }
        other => panic!("unexpected delta {other:?}"),
    }
    match &deltas[3] {
        StreamDelta::Done { finish_reason, usage } => {
            assert_eq!(finish_reason.as_deref(), Some("tool_calls"));
            assert_eq!(usage.as_ref().map(|u| u.total_tokens), Some(7));
        }
        other => panic!("unexpected delta {other:?}"),
    }
}

/// A JSON value from its text.
fn j(text: &str) -> serde_json::Value {
    serde_json::from_str(text).unwrap()
}

/// A fresh random identifier.
fn new_id() -> u128 {
    uuid::Uuid::new_v4().as_u128()
}

/// The current time.
fn now() -> Timestamp {
    let t = chrono::Utc::now();
    Timestamp { secs: t.timestamp(), nanos: t.timestamp_subsec_nanos() }
}

#[test]
fn tool_definitions_default_to_the_function_type() {
    assert_eq!(chimera::llm::default_function_type(), "function");
}
