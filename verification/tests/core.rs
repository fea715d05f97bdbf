use chimera::agent::{
    schema_for_tool, tool_definitions, AgentAction, AgentConfig, AgentLoop, AgentRunResult,
    AgentStep, DoneReason, StreamEvent, DEFAULT_SYSTEM_PROMPT,
};
use chimera::browser::{BrowserAction, BrowserArtifact, BrowserTarget};
use chimera::comms::{Channel, CommsApprovalPrompt, Notification, Priority};
use chimera::creatures::{
    AutonomyLevel, BuiltinCreatureRegistry, CreatureRegistry, CreatureSpec, Temperament, WorldKind,
};
use chimera::eval::{EvalRequest, EvalTarget};
use chimera::harness::{assigned_world, decompose, run_tasks, RunPlan, RunStatus};
use chimera::llm::{deltas_of_response, CompletionResponse, FunctionCall, LlmError, ToolCall, Usage};
use chimera::mcp::McpContent;
use chimera::memory::{MemoryItem, MemoryLayer, MemoryQuery};
use chimera::mobile::{DeviceAction, DeviceArtifact, DeviceSpec, DeviceStatus};
use chimera::outside::Timestamp;
use chimera::pack::{ExecutionScope, InMemoryPackRegistry, PackRegistry, PackSpec};
use chimera::sandbox::{ResourceLimits, WorldSpec, WorldStatus};
use chimera::scheduler::{MockScheduler, ScheduleFrequency, ScheduleSpec, WorkflowStatus};
use chimera::session::SessionMeta;
use chimera::shell::{ShellCommand, ShellSpec, WorktreeSpec};
use chimera::skill::{CapturedSkill, MockSkillCapture, SkillSpec};
use chimera::stubs::{
    StubBrowserController, StubCommsBridge, StubEvaluator, StubMcpClient, StubMemoryStore,
    StubMobileController, StubSessionStore, StubShellManager, StubToolRouter, StubTraceSink,
    StubWorldManager, ONE_BITS,
};
use chimera::tools::{ToolCall as RouterToolCall, ToolCategory, ToolDescriptor, ToolEvidence, ToolResult};

// ── Harness ──────────────────────────────────────────────────────

fn builtin() -> Vec<CreatureSpec> {
    BuiltinCreatureRegistry.builtin()
}

#[test]
fn harness_run_objective_completes() {
    let mut sink = TraceBuffer::new();
    let report = run_objective("test objective", builtin(), &mut sink).unwrap();
    assert_eq!(report.status, RunStatus::Completed);
    assert_eq!(report.tasks.len(), 4);
    assert!(report.tasks.iter().all(|t| t.success));
    assert_eq!(report.checkpoints.len(), 1);
    assert!(report.approvals.is_empty());
    assert_eq!(sink.cached(report.session_id).unwrap().len(), 4);
}

#[test]
fn harness_run_plan_mode() {
    let mut sink = TraceBuffer::new();
    let report = run_objective("plan something", builtin(), &mut sink).unwrap();
    assert_eq!(report.status, RunStatus::Completed);
}

#[test]
fn harness_run_swarm_mode() {
    let mut sink = TraceBuffer::new();
    let report = run_objective("swarm something", builtin(), &mut sink).unwrap();
    assert_eq!(report.status, RunStatus::Completed);
}

#[test]
fn harness_run_tasks_records_one_trace_per_task() {
    let (report, traces) = run_tasks("test objective", builtin());
    assert_eq!(report.tasks.len(), 4);
    assert_eq!(traces.len(), 4);
}

fn solo() -> CreatureSpec {
    CreatureSpec {
        name: "solo".into(),
        role: "does everything".into(),
        temperament: Temperament::Balanced,
        toolbelt: vec![],
        preferred_worlds: vec![WorldKind::LocalShell],
        autonomy: AutonomyLevel::Medium,
        stop_conditions: vec![],
        escalation_rules: vec![],
        token_budget: None,
        deadline_secs: None,
    }
}

#[test]
fn harness_wraps_creatures_when_tasks_exceed_count() {
    let (report, traces) = run_tasks("test wrapping", vec![solo()]);
    assert_eq!(report.status, RunStatus::Completed);
    assert_eq!(report.tasks.len(), 4);
    assert!(report.tasks.iter().all(|t| t.success));
    assert!(traces.iter().all(|t| t.span == "execute:solo"));
}

#[test]
fn harness_assigns_creatures_in_order() {
    let (report, traces) = run_tasks("x", builtin());
    let names: Vec<&str> = traces.iter().map(|t| t.span.as_str()).collect();
    assert_eq!(names, vec!["execute:raven", "execute:mantis", "execute:hound", "execute:owl"]);
    assert_eq!(traces[2].message, "executing: apply changes");
    for (t, tr) in report.tasks.iter().zip(traces.iter()) {
        assert_eq!(t.creature_id, tr.creature_id);
        assert_eq!(tr.session_id, report.session_id);
    }
    assert_eq!(report.tasks[0].description, "analyze codebase structure");
}

#[test]
fn harness_plan_steps_one_task_at_a_time() {
    let mut plan = RunPlan::start("obj", vec![solo()]);
    let mut n = 0;
    while !plan.is_complete() {
        assert!(plan.execute_next().is_some());
        n += 1;
    }
    assert!(plan.execute_next().is_none());
    assert_eq!(n, 4);
    let id = plan.session_id();
    let report = plan.finish();
    assert_eq!(report.session_id, id);
    assert_eq!(report.checkpoints.len(), 1);
}

#[test]
fn decompose_gives_four_tasks() {
    let tasks = decompose("anything");
    assert_eq!(
        tasks,
        vec![
            "analyze codebase structure".to_string(),
            "identify affected modules".to_string(),
            "apply changes".to_string(),
            "run verification checks".to_string(),
        ]
    );
}

#[test]
fn assigned_world_falls_back_to_local_shell() {
    let mut c = solo();
    c.preferred_worlds = vec![WorldKind::Container, WorldKind::MicroVm];
    assert_eq!(assigned_world(&c), WorldKind::Container);
    c.preferred_worlds = vec![];
    assert_eq!(assigned_world(&c), WorldKind::LocalShell);
}

// ── Stubs ────────────────────────────────────────────────────────

#[test]
fn stub_trace_sink_emit_and_query() {
    let sink = StubTraceSink;
    assert!(sink.query(new_id()).is_empty());
    assert!(sink.query_creature(new_id(), new_id()).is_empty());
}

#[test]
fn stub_session_store_full_lifecycle() {
    let store = StubSessionStore;
    let meta = SessionMeta { label: "test".into(), objective: "test obj".into(), created_at: now() };
    let id = store.create(meta);
    let _cp = store.snapshot(id);
    let _fork = store.fork(id);
    let state = store.load(id);
    assert_eq!(state.meta.label, "stub");
    assert!(store.list().is_empty());
}

#[test]
fn builtin_creature_registry_has_four() {
    let reg = BuiltinCreatureRegistry;
    let builtins = reg.builtin();
    assert_eq!(builtins.len(), 4);
    let names: Vec<&str> = builtins.iter().map(|c| c.name.as_str()).collect();
    assert!(names.contains(&"raven"));
    assert!(names.contains(&"mantis"));
    assert!(names.contains(&"hound"));
    assert!(names.contains(&"owl"));
}

#[test]
fn builtin_creature_registry_resolve() {
    let reg = BuiltinCreatureRegistry;
    let raven = reg.resolve("raven").unwrap();
    assert_eq!(raven.role, "reconnaissance and evidence gathering");
    assert!(reg.resolve("nonexistent").is_err());
}

#[test]
fn unknown_creature_error_names_it() {
    let err = BuiltinCreatureRegistry.resolve("gryphon").unwrap_err();
    assert_eq!(err.message(), "unknown creature: gryphon");
}

#[test]
fn stub_tool_router_call_and_list() {
    let router = StubToolRouter;
    let call = RouterToolCall {
        tool: "bash".into(),
        args: j(r#"{"cmd":"ls"}"#),
        world: None,
        requested_by: new_id(),
    };
    let result = router.call(call);
    assert!(result.ok);
    assert_eq!(result.output, j(r#"{"stub": true}"#));
    assert!(router.list().is_empty());
    assert!(router.healthcheck("bash"));
}

#[test]
fn stub_shell_manager_lifecycle() {
    let mgr = StubShellManager;
    let spec = ShellSpec { cwd: "/tmp".into(), env: vec![], read_only: false, label: Some("test".into()) };
    let id = mgr.spawn_shell(spec);
    let output = mgr.exec(id, ShellCommand { command: "echo hello".into(), timeout_secs: None });
    assert_eq!(output.exit_code, 0);
    assert!(mgr.transcript(id).is_empty());
    assert!(mgr.list_shells().is_empty());
}

#[test]
fn stub_shell_manager_worktree() {
    let mgr = StubShellManager;
    let spec = WorktreeSpec {
        repo_root: "/tmp/repo".into(),
        branch: Some("main".into()),
        read_only: true,
        label: None,
    };
    let handle = mgr.create_worktree(spec);
    assert!(handle.read_only);
    assert_eq!(handle.path, "/tmp/repo/.chimera-wt-stub");
}

#[test]
fn stub_world_manager_lifecycle() {
    let mgr = StubWorldManager;
    let spec = WorldSpec {
        kind: chimera::sandbox::WorldKind::Container,
        image: Some("alpine".into()),
        root: None,
        env: vec![],
        network: false,
        writable: true,
        label: Some("test".into()),
        limits: ResourceLimits::default(),
    };
    let id = mgr.allocate(spec);
    let state = mgr.inspect(id);
    assert_eq!(state.status, WorldStatus::Running);
    assert!(mgr.list().is_empty());
}

#[test]
fn stub_browser_controller_lifecycle() {
    let ctrl = StubBrowserController;
    let id = ctrl.open(BrowserTarget::Url("http://test.com".into()));
    let artifact = ctrl.act(id, BrowserAction::Screenshot);
    assert!(matches!(artifact, BrowserArtifact::Ack));
    let evidence = ctrl.screenshot(id);
    assert_eq!(evidence.kind, "screenshot");
    let state = ctrl.state(id);
    assert!(state.active);
    assert_eq!(state.current_url, "about:blank");
    assert!(ctrl.list_sessions().is_empty());
}

#[test]
fn stub_mobile_controller_lifecycle() {
    let ctrl = StubMobileController;
    let spec = DeviceSpec { profile: "pixel8".into(), os_version: None, network: false, label: None };
    let id = ctrl.boot(spec);
    let artifact = ctrl.perform(id, DeviceAction::Screenshot);
    assert!(matches!(artifact, DeviceArtifact::Ack));
    let state = ctrl.state(id);
    assert_eq!(state.status, DeviceStatus::Running);
    assert!(ctrl.list_devices().is_empty());
}

#[test]
fn stub_comms_bridge_lifecycle() {
    let bridge = StubCommsBridge;
    let msg = Notification {
        channel: Channel::Terminal,
        priority: Priority::Normal,
        subject: "test".into(),
        body: "body".into(),
        metadata: None,
    };
    let _mid = bridge.notify(msg);
    let prompt = CommsApprovalPrompt {
        channel: Channel::Terminal,
        actor: "test".into(),
        class: "green".into(),
        action: "read".into(),
        reason: "testing".into(),
        touched_resources: vec![],
    };
    let aid = bridge.request_approval(prompt);
    assert_eq!(bridge.check_approval(aid), Some(true));
    assert!(bridge.receipt(new_id()).is_none());
}

#[test]
fn stub_memory_store_operations() {
    let store = StubMemoryStore;
    let item = MemoryItem {
        id: new_id(),
        layer: MemoryLayer::Episodic,
        key: "test".into(),
        content: "content".into(),
        metadata: j(r#"{}"#),
        created_at: now(),
        last_accessed: now(),
        session_id: None,
        creature_id: None,
        relevance_bits: 0.9f64.to_bits(),
    };
    let expected = item.id;
    let id = store.remember(item);
    assert_ne!(id, 0);
    assert_eq!(id, expected);
    assert!(store.retrieve(MemoryQuery::default()).is_empty());
    assert_eq!(store.compact(MemoryLayer::Scratch), 0);
}

#[test]
fn stub_evaluator_operations() {
    let eval = StubEvaluator;
    let req = EvalRequest {
        name: "test".into(),
        target: EvalTarget::Artifact { path: "x".into() },
        graders: vec![],
    };
    let report = eval.grade(req);
    assert!(report.passed);
    assert_eq!(f64::from_bits(report.score_bits), 1.0);
    assert_eq!(report.score_bits, ONE_BITS);
    let diff = eval.compare(new_id(), new_id());
    assert!(!diff.regression_detected);
}

#[test]
fn stub_mcp_client_operations() {
    let client = StubMcpClient;
    assert!(client.list_tools("test").is_empty());
    let result = client.invoke("test", "tool", j(r#"{}"#));
    assert!(!result.is_error);
    assert!(client.list_resources("test").is_empty());
    let content = client.read_resource("test", "uri");
    assert!(matches!(content, McpContent::Text { .. }));
    assert!(client.ping("test"));
}

// ── Agent loop ───────────────────────────────────────────────────

/// Runs the loop against scripted responses, popped from the back, and a
/// router that echoes its arguments.
fn drive(mut responses: Vec<CompletionResponse>, cfg: &AgentConfig, objective: &str) -> (AgentRunResult, Vec<String>, Vec<(String, serde_json::Value)>) {
    let mut agent = AgentLoop::new(objective, 7, cfg);
    let mut routed: Vec<String> = Vec::new();
    let mut events: Vec<(String, serde_json::Value)> = Vec::new();
    loop {
        match agent.next_action() {
            AgentAction::Complete => {
                let outcome = match responses.pop() {
                    Some(r) => Ok(deltas_of_response(r)),
                    None => Err(LlmError::StreamEnd),
                };
                for e in agent.on_completion(outcome) {
                    events.push(e.callback_args());
                }
            }
            AgentAction::CallTool(call) => {
                routed.push(call.tool.clone());
                let result = ToolResult {
                    ok: true,
                    output: { let mut m = serde_json::Map::new(); m.insert("echo".to_string(), call.args.clone()); serde_json::Value::Object(m) },
                    evidence: vec![ToolEvidence { kind: "transcript".into(), uri: "mem://test".into() }],
                };
                agent.on_tool_result(Ok(result));
            }
            AgentAction::Finish => break,
        }
    }
    (agent.finish(), routed, events)
}

fn bash_call(id: &str, args: &str) -> ToolCall {
    ToolCall {
        id: id.to_string(),
        kind: "function".to_string(),
        function: FunctionCall { name: "bash".to_string(), arguments: args.to_string() },
    }
}

#[test]
fn loop_terminates_on_final_answer() {
    let responses = vec![CompletionResponse {
        content: Some("done".to_string()),
        tool_calls: vec![],
        finish_reason: Some("stop".to_string()),
        usage: Some(Usage { prompt_tokens: 10, completion_tokens: 5, total_tokens: 15 }),
    }];
    let (result, _, events) = drive(responses, &AgentConfig::default(), "do nothing");
    assert!(matches!(result.done_reason, DoneReason::FinalAnswer));
    assert_eq!(result.final_answer.as_deref(), Some("done"));
    assert_eq!(result.total_prompt_tokens, 10);
    assert_eq!(result.total_completion_tokens, 5);
    assert_eq!(events, vec![("text".to_string(), j(r#""done""#))]);
}

#[test]
fn loop_executes_tool_calls_then_finishes() {
    let responses = vec![
        CompletionResponse {
            content: Some("finished".to_string()),
            tool_calls: vec![],
            finish_reason: Some("stop".to_string()),
            usage: None,
        },
        CompletionResponse {
            content: None,
            tool_calls: vec![bash_call("call_1", r#"{"command":"echo hi"}"#)],
            finish_reason: Some("tool_calls".to_string()),
            usage: None,
        },
    ];
    let (result, routed, events) = drive(responses, &AgentConfig::default(), "run echo");
    assert!(matches!(result.done_reason, DoneReason::FinalAnswer));
    assert_eq!(result.iterations, 2);
    assert!(result.steps.iter().any(|s| matches!(s, AgentStep::Tool { .. })));
    assert_eq!(routed, vec!["bash".to_string()]);
    assert_eq!(events[0], ("tool_call".to_string(), j(r#"{"name": "bash"}"#)));
    match &result.steps[1] {
        AgentStep::Tool { call, ok, output } => {
            assert_eq!(call.name, "bash");
            assert_eq!(call.arguments, j(r#"{"command": "echo hi"}"#));
            assert!(*ok);
            assert_eq!(output, &j(r#"{"echo": {"command": "echo hi"}}"#));
        }
        other => panic!("unexpected step {other:?}"),
    }
}

#[test]
fn loop_stops_on_max_iterations() {
    let cfg = AgentConfig { max_iterations: 2, ..Default::default() };
    let (result, _, _) = drive(vec![], &cfg, "loop");
    assert!(matches!(result.done_reason, DoneReason::Error | DoneReason::MaxIterations));
}

#[test]
fn loop_hits_the_cap_when_tools_never_stop() {
    let cfg = AgentConfig { max_iterations: 2, ..Default::default() };
    let round = || CompletionResponse {
        content: None,
        tool_calls: vec![bash_call("c", r#"{"command":"loop"}"#)],
        finish_reason: Some("tool_calls".to_string()),
        usage: Some(Usage { prompt_tokens: 1, completion_tokens: 2, total_tokens: 3 }),
    };
    let (result, routed, _) = drive(vec![round(), round(), round()], &cfg, "loop");
    assert_eq!(result.done_reason, DoneReason::MaxIterations);
    assert_eq!(result.iterations, 2);
    assert_eq!(routed.len(), 2);
    assert_eq!(result.total_prompt_tokens, 2);
    assert_eq!(result.total_completion_tokens, 4);
    assert!(matches!(result.steps.last(), Some(AgentStep::Done { reason: DoneReason::MaxIterations, .. })));
}

#[test]
fn loop_conversation_starts_with_prompt_and_objective() {
    let cfg = AgentConfig::default();
    let agent = AgentLoop::new("fix the bug", 1, &cfg);
    let m = agent.messages();
    assert_eq!(m.len(), 2);
    assert_eq!(m[0].content.as_deref(), Some(DEFAULT_SYSTEM_PROMPT));
    assert_eq!(m[1].content.as_deref(), Some("fix the bug"));
}

#[test]
fn loop_request_carries_model_conversation_tools_and_sampling() {
    let cfg = AgentConfig::default();
    let mut agent = AgentLoop::new("fix the bug", 1, &cfg);
    let defs = tool_definitions(vec![ToolDescriptor {
        name: "bash".into(),
        description: "run a command".into(),
        category: ToolCategory::LocalExecution,
        read_only: false,
    }]);
    assert!(matches!(agent.next_action(), AgentAction::Complete));
    let req = agent.request("gpt-4o", &defs);
    assert_eq!(req.model, "gpt-4o");
    assert_eq!(req.messages.len(), 2);
    assert_eq!(req.messages[1].content.as_deref(), Some("fix the bug"));
    assert_eq!(req.tools.len(), 1);
    assert_eq!(req.tools[0].function.name, "bash");
    assert_eq!(req.temperature_bits, Some(0));
    assert_eq!(req.max_tokens, Some(8192));
    assert!(req.tool_choice.is_none() && req.top_p_bits.is_none() && req.stop.is_empty());
}

#[test]
fn finished_loop_keeps_its_stop_reason() {
    let (result, _, _) = drive(vec![], &AgentConfig { max_iterations: 2, ..Default::default() }, "x");
    assert_eq!(result.done_reason, DoneReason::Error);
    assert_eq!(result.iterations, 1);
}

#[test]
fn stream_events_describe_text_and_calls() {
    let t = StreamEvent::Text("hi".into());
    assert_eq!(t.callback_args(), ("text".to_string(), j(r#""hi""#)));
    let c = StreamEvent::ToolCall { name: "grep".into() };
    assert_eq!(c.callback_args(), ("tool_call".to_string(), j(r#"{"name": "grep"}"#)));
}

#[test]
fn schema_for_known_tools_has_required_fields() {
    let s = schema_for_tool("bash");
    assert!(s.get("properties").is_some());
    let reqs = s.get("required").unwrap().as_array().unwrap();
    assert!(reqs.iter().any(|r| r.as_str() == Some("command")));
}

#[test]
fn schema_for_unknown_tool_is_permissive() {
    let s = schema_for_tool("custom_tool");
    assert_eq!(s.get("additionalProperties").and_then(|v| v.as_bool()), Some(true));
}

#[test]
fn build_tool_definitions_converts_descriptors() {
    let defs = tool_definitions(vec![ToolDescriptor {
        name: "bash".to_string(),
        description: "run a command".to_string(),
        read_only: false,
        category: ToolCategory::LocalExecution,
    }]);
    assert_eq!(defs.len(), 1);
    assert_eq!(defs[0].function.name, "bash");
    assert_eq!(defs[0].kind, "function");
    assert_eq!(defs[0].function.parameters, schema_for_tool("bash"));
}

// ── Packs ────────────────────────────────────────────────────────

#[test]
fn register_and_resolve() {
    let mut reg = InMemoryPackRegistry::new();
    let spec = PackSpec {
        name: "test-pack".into(),
        description: "a test".into(),
        creatures: vec!["raven".into(), "mantis".into()],
        scope: ExecutionScope::default(),
        objective_template: None,
        skills: vec![],
    };
    reg.register(spec);
    let resolved = reg.resolve("test-pack").unwrap();
    assert_eq!(resolved.name, "test-pack");
    assert_eq!(resolved.creatures.len(), 2);
}

#[test]
fn list_returns_registered_names() {
    let mut reg = InMemoryPackRegistry::new();
    reg.seed_builtins();
    let mut names = reg.list();
    names.sort();
    assert_eq!(names.len(), 3);
    assert!(names.contains(&"ship-hotfix".to_string()));
    assert!(names.contains(&"incident-response".to_string()));
    assert!(names.contains(&"browser-lab".to_string()));
}

#[test]
fn pack_resolve_unknown_fails() {
    let reg = InMemoryPackRegistry::new();
    assert!(reg.resolve("nonexistent").is_err());
}

#[test]
fn remove_existing() {
    let mut reg = InMemoryPackRegistry::new();
    reg.seed_builtins();
    reg.remove("ship-hotfix").unwrap();
    assert!(reg.resolve("ship-hotfix").is_err());
}

#[test]
fn pack_remove_unknown_fails() {
    let mut reg = InMemoryPackRegistry::new();
    let err = reg.remove("ghost").unwrap_err();
    assert_eq!(err.message(), "pack not found: ghost");
}

#[test]
fn pack_scope_defaults() {
    let scope = ExecutionScope::default();
    assert!(!scope.network);
    assert!(!scope.can_commit);
    assert!(!scope.can_message_external);
    assert!(scope.denied_paths.contains(&".env".to_string()));
}

#[test]
fn register_replaces_a_pack_of_the_same_name() {
    let mut reg = InMemoryPackRegistry::new();
    reg.seed_builtins();
    let mut p = reg.resolve("browser-lab").unwrap();
    p.description = "changed".into();
    reg.register(p);
    assert_eq!(reg.list().len(), 3);
    assert_eq!(reg.resolve("browser-lab").unwrap().description, "changed");
}

// ── Scheduler ────────────────────────────────────────────────────

fn daily_spec(label: &str) -> ScheduleSpec {
    ScheduleSpec {
        label: label.into(),
        objective: format!("{} objective", label),
        frequency: ScheduleFrequency::Interval { every_secs: 86400 },
        pack: None,
        enabled: true,
    }
}

#[test]
fn create_and_get() {
    let mut sched = MockScheduler::new();
    let id = sched.create(daily_spec("dep-check"));
    let handle = sched.get(id).unwrap();
    assert_eq!(handle.spec.label, "dep-check");
    assert_eq!(handle.status, WorkflowStatus::Active);
    assert_eq!(handle.run_count, 0);
    assert!(handle.last_run.is_none());
}

#[test]
fn list_workflows() {
    let mut sched = MockScheduler::new();
    let id1 = sched.create(daily_spec("a"));
    let id2 = sched.create(daily_spec("b"));
    let ids = sched.list();
    assert_eq!(ids.len(), 2);
    assert!(ids.contains(&id1));
    assert!(ids.contains(&id2));
}

#[test]
fn pause_and_resume() {
    let mut sched = MockScheduler::new();
    let id = sched.create(daily_spec("test"));
    sched.pause(id).unwrap();
    assert_eq!(sched.get(id).unwrap().status, WorkflowStatus::Paused);
    sched.resume(id).unwrap();
    assert_eq!(sched.get(id).unwrap().status, WorkflowStatus::Active);
}

#[test]
fn cancel_workflow() {
    let mut sched = MockScheduler::new();
    let id = sched.create(daily_spec("to-cancel"));
    sched.cancel(id).unwrap();
    assert_eq!(sched.get(id).unwrap().status, WorkflowStatus::Cancelled);
}

#[test]
fn resume_refuses_a_workflow_that_is_not_paused() {
    let mut sched = MockScheduler::new();
    let id = sched.create(daily_spec("done"));
    sched.cancel(id).unwrap();
    let err = sched.resume(id).unwrap_err();
    assert!(err.message().starts_with("workflow not paused: "));
    assert_eq!(sched.get(id).unwrap().status, WorkflowStatus::Cancelled);
    let active = sched.create(daily_spec("running"));
    assert!(sched.resume(active).is_err());
    assert_eq!(sched.get(active).unwrap().status, WorkflowStatus::Active);
}

#[test]
fn get_unknown_fails() {
    let sched = MockScheduler::new();
    assert!(sched.get(new_id()).is_err());
}

#[test]
fn pause_unknown_fails() {
    let mut sched = MockScheduler::new();
    let id = new_id();
    let err = sched.pause(id).unwrap_err();
    assert!(err.message().starts_with("workflow not found: "));
}

// ── Skills ───────────────────────────────────────────────────────

fn make_skill(name: &str) -> CapturedSkill {
    CapturedSkill {
        id: new_id(),
        spec: SkillSpec {
            name: name.into(),
            description: format!("skill for {}", name),
            version: "0.1.0".into(),
            objective_template: format!("execute {}", name),
            required_creatures: vec!["raven".into(), "mantis".into()],
            required_tools: vec!["bash".into(), "git".into()],
            pre_hooks: vec!["cargo check".into()],
            post_hooks: vec!["cargo test".into()],
        },
        source_session: new_id(),
        captured_at: now(),
        confidence_bits: 0.92f64.to_bits(),
    }
}

#[test]
fn capture_and_resolve() {
    let mut store = MockSkillCapture::new();
    let id = store.capture(make_skill("ship-hotfix"));
    let resolved = store.resolve("ship-hotfix").unwrap();
    assert_eq!(resolved.id, id);
    assert_eq!(resolved.spec.name, "ship-hotfix");
    assert_eq!(f64::from_bits(resolved.confidence_bits), 0.92);
}

#[test]
fn list_captured_skills() {
    let mut store = MockSkillCapture::new();
    store.capture(make_skill("a"));
    store.capture(make_skill("b"));
    let mut names = store.list();
    names.sort();
    assert_eq!(names, vec!["a", "b"]);
}

#[test]
fn skill_resolve_unknown_fails() {
    let store = MockSkillCapture::new();
    assert!(store.resolve("nonexistent").is_err());
}

#[test]
fn remove_skill() {
    let mut store = MockSkillCapture::new();
    store.capture(make_skill("temp"));
    store.remove("temp").unwrap();
    assert!(store.resolve("temp").is_err());
}

#[test]
fn skill_remove_unknown_fails() {
    let mut store = MockSkillCapture::new();
    assert!(store.remove("ghost").is_err());
}

#[test]
fn capture_replaces_a_skill_of_the_same_name() {
    let mut store = MockSkillCapture::new();
    store.capture(make_skill("a"));
    let second = make_skill("a");
    let id = store.capture(second);
    assert_eq!(store.list(), vec!["a".to_string()]);
    assert_eq!(store.resolve("a").unwrap().id, id);
}

/// A JSON value from its text.
fn j(text: &str) -> serde_json::Value {
    serde_json::from_str(text).unwrap()
}

/// A fresh random identifier.
fn new_id() -> u128 {
    uuid::Uuid::new_v4().as_u128()
}

/// The current time.
fn now() -> Timestamp {
    let t = chrono::Utc::now();
    Timestamp { secs: t.timestamp(), nanos: t.timestamp_subsec_nanos() }
}

#[test]
fn pack_registry_trait_reaches_the_store() {
    let mut reg = InMemoryPackRegistry::new();
    PackRegistry::register(&mut reg, PackSpec {
        name: "p".into(),
        description: "d".into(),
        creatures: vec![],
        scope: ExecutionScope::default(),
        objective_template: Some("do {x}".into()),
        skills: vec![],
    });
    assert_eq!(names_of(&reg), vec!["p".to_string()]);
    assert!(PackRegistry::remove(&mut reg, "p").is_ok());
    assert!(PackRegistry::resolve(&reg, "p").is_err());
}

/// The pack names a registry lists.
fn names_of<R: PackRegistry>(r: &R) -> Vec<String> {
    r.list()
}

// ── Harness with a trace sink ────────────────────────────────────

use chimera::harness::run_objective;
use chimera::trace::{TraceBuffer, TraceLevel};

#[test]
fn harness_emits_one_trace_event_per_task() {
    let mut sink = TraceBuffer::new();
    let creatures = builtin();
    let report = run_objective("ship it", creatures.clone(), &mut sink).unwrap();
    assert_eq!(report.tasks.len(), 4);
    let events = sink.cached(report.session_id).expect("events were emitted");
    assert_eq!(events.len(), 4);
    for (i, e) in events.iter().enumerate() {
        assert_eq!(e.level, TraceLevel::Info);
        assert_eq!(e.creature_id, Some(report.tasks[i].creature_id));
        assert_eq!(e.span, format!("execute:{}", creatures[i].name));
        assert_eq!(e.message, format!("executing: {}", report.tasks[i].description));
    }
    assert_eq!(events[0].fields, j(r#"{"autonomy": "Medium", "temperament": "Cautious"}"#));
}
