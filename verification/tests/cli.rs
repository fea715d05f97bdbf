use chimera::cli::{
    ApproveCmd, AutonomyCmd, BrowserCmd, CheckpointCmd, Cli, CliError, Command, CreatureCmd,
    DaemonCmd, EvalCmd, MemoryCmd, OutputFormat, PhoneCmd, PolicyCmd, SessionCmd, SkillCmd,
    ToolCmd, TraceCmd, WorldCmd,
};

fn parse(args: &[&str]) -> Cli {
    try_parse(args).unwrap()
}

fn try_parse(args: &[&str]) -> Result<Cli, CliError> {
    let mut all: Vec<&str> = vec!["chimera"];
    all.extend_from_slice(args);
    Cli::try_parse_from(&all)
}

#[test]
fn parse_init() {
    let cli = parse(&["init"]);
    assert!(matches!(cli.command, Command::Init));
}

#[test]
fn parse_up_down_doctor_status() {
    assert!(matches!(parse(&["up"]).command, Command::Up));
    assert!(matches!(parse(&["down"]).command, Command::Down));
    assert!(matches!(parse(&["doctor"]).command, Command::Doctor));
    assert!(matches!(parse(&["status"]).command, Command::Status));
}

#[test]
fn parse_daemon() {
    let cli = parse(&["daemon", "start"]);
    assert!(matches!(cli.command, Command::Daemon { cmd: DaemonCmd::Start }));
    let cli = parse(&["daemon", "stop"]);
    assert!(matches!(cli.command, Command::Daemon { cmd: DaemonCmd::Stop }));
}

#[test]
fn parse_run_plan_swarm() {
    let cli = parse(&["run", "fix auth"]);
    match cli.command {
        Command::Run { objective, interactive: _ } => assert_eq!(objective, "fix auth"),
        _ => panic!("expected run"),
    }
    let cli = parse(&["plan", "migrate db"]);
    match cli.command {
        Command::Plan { objective } => assert_eq!(objective, "migrate db"),
        _ => panic!("expected plan"),
    }
    let cli = parse(&["swarm", "audit tests"]);
    match cli.command {
        Command::Swarm { objective } => assert_eq!(objective, "audit tests"),
        _ => panic!("expected swarm"),
    }
}

#[test]
fn parse_pack() {
    let cli = parse(&["pack", "ship-hotfix"]);
    match cli.command {
        Command::Pack { name } => assert_eq!(name, "ship-hotfix"),
        _ => panic!("expected pack"),
    }
}

#[test]
fn parse_session_commands() {
    assert!(matches!(parse(&["session", "list"]).command, Command::Session { cmd: SessionCmd::List }));
    match parse(&["session", "resume", "abc"]).command {
        Command::Session { cmd: SessionCmd::Resume { session_id } } => assert_eq!(session_id, "abc"),
        _ => panic!("expected resume"),
    }
    match parse(&["session", "fork", "xyz"]).command {
        Command::Session { cmd: SessionCmd::Fork { session_id } } => assert_eq!(session_id, "xyz"),
        _ => panic!("expected fork"),
    }
}

#[test]
fn parse_checkpoint_rollback_replay() {
    assert!(matches!(parse(&["checkpoint", "create"]).command, Command::Checkpoint { cmd: CheckpointCmd::Create }));
    assert!(matches!(parse(&["checkpoint", "list"]).command, Command::Checkpoint { cmd: CheckpointCmd::List }));
    match parse(&["rollback", "cp-1"]).command {
        Command::Rollback { checkpoint_id } => assert_eq!(checkpoint_id, "cp-1"),
        _ => panic!("expected rollback"),
    }
    match parse(&["replay", "s-1"]).command {
        Command::Replay { session_id } => assert_eq!(session_id, "s-1"),
        _ => panic!("expected replay"),
    }
}

#[test]
fn parse_creature_commands() {
    assert!(matches!(parse(&["creature", "list"]).command, Command::Creature { cmd: CreatureCmd::List }));
    match parse(&["creature", "spawn", "raven", "--count", "3"]).command {
        Command::Creature { cmd: CreatureCmd::Spawn { name, count } } => {
            assert_eq!(name, "raven");
            assert_eq!(count, 3);
        }
        _ => panic!("expected spawn"),
    }
    match parse(&["creature", "inspect", "mantis-1"]).command {
        Command::Creature { cmd: CreatureCmd::Inspect { instance } } => assert_eq!(instance, "mantis-1"),
        _ => panic!("expected inspect"),
    }
    match parse(&["creature", "stop", "hound-2"]).command {
        Command::Creature { cmd: CreatureCmd::Stop { instance } } => assert_eq!(instance, "hound-2"),
        _ => panic!("expected stop"),
    }
    match parse(&["creature", "promote", "owl-1"]).command {
        Command::Creature { cmd: CreatureCmd::Promote { instance } } => assert_eq!(instance, "owl-1"),
        _ => panic!("expected promote"),
    }
    match parse(&["creature", "leash", "hydra-1"]).command {
        Command::Creature { cmd: CreatureCmd::Leash { instance } } => assert_eq!(instance, "hydra-1"),
        _ => panic!("expected leash"),
    }
}

#[test]
fn parse_tool_commands() {
    assert!(matches!(parse(&["tool", "list"]).command, Command::Tool { cmd: ToolCmd::List }));
    match parse(&["tool", "inspect", "bash"]).command {
        Command::Tool { cmd: ToolCmd::Inspect { name } } => assert_eq!(name, "bash"),
        _ => panic!("expected inspect"),
    }
    match parse(&["tool", "healthcheck", "mcp"]).command {
        Command::Tool { cmd: ToolCmd::Healthcheck { name } } => assert_eq!(name, "mcp"),
        _ => panic!("expected healthcheck"),
    }
    match parse(&["tool", "test", "browser"]).command {
        Command::Tool { cmd: ToolCmd::Test { name } } => assert_eq!(name, "browser"),
        _ => panic!("expected test"),
    }
    match parse(&["tool", "disable", "comms"]).command {
        Command::Tool { cmd: ToolCmd::Disable { name } } => assert_eq!(name, "comms"),
        _ => panic!("expected disable"),
    }
}

#[test]
fn parse_world_browser_phone() {
    assert!(matches!(parse(&["world", "list"]).command, Command::World { cmd: WorldCmd::List }));
    match parse(&["world", "spawn", "vm"]).command {
        Command::World { cmd: WorldCmd::Spawn { kind } } => assert_eq!(kind, "vm"),
        _ => panic!("expected spawn"),
    }
    match parse(&["browser", "open", "staging"]).command {
        Command::Browser { cmd: BrowserCmd::Open { target } } => assert_eq!(target, "staging"),
        _ => panic!("expected open"),
    }
    match parse(&["phone", "boot", "pixel8"]).command {
        Command::Phone { cmd: PhoneCmd::Boot { device } } => assert_eq!(device, "pixel8"),
        _ => panic!("expected boot"),
    }
}

#[test]
fn parse_policy_approval_commands() {
    assert!(matches!(parse(&["approve", "next"]).command, Command::Approve { cmd: ApproveCmd::Next }));
    assert!(matches!(parse(&["approve", "plan"]).command, Command::Approve { cmd: ApproveCmd::Plan }));
    match parse(&["deny", "call-4"]).command {
        Command::Deny { call_id } => assert_eq!(call_id, "call-4"),
        _ => panic!("expected deny"),
    }
    assert!(matches!(parse(&["policy", "show"]).command, Command::Policy { cmd: PolicyCmd::Show }));
    assert!(matches!(parse(&["policy", "edit"]).command, Command::Policy { cmd: PolicyCmd::Edit }));
    match parse(&["autonomy", "set", "low"]).command {
        Command::Autonomy { cmd: AutonomyCmd::SetLevel { level } } => assert_eq!(level, "low"),
        _ => panic!("expected set"),
    }
    match parse(&["leash", "all"]).command {
        Command::Leash { target } => assert_eq!(target, "all"),
        _ => panic!("expected leash"),
    }
}

#[test]
fn parse_trace_eval_commands() {
    assert!(matches!(parse(&["trace", "live"]).command, Command::Trace { cmd: TraceCmd::Live }));
    match parse(&["trace", "show", "t-1"]).command {
        Command::Trace { cmd: TraceCmd::Show { task_id } } => assert_eq!(task_id, "t-1"),
        _ => panic!("expected show"),
    }
    match parse(&["trace", "export", "s-1"]).command {
        Command::Trace { cmd: TraceCmd::Export { session_id } } => assert_eq!(session_id, "s-1"),
        _ => panic!("expected export"),
    }
    match parse(&["eval", "run", "auth-refactor"]).command {
        Command::Eval { cmd: EvalCmd::Run { name } } => assert_eq!(name, "auth-refactor"),
        _ => panic!("expected run"),
    }
    match parse(&["eval", "compare", "a", "b"]).command {
        Command::Eval { cmd: EvalCmd::Compare { checkpoint_a, checkpoint_b } } => {
            assert_eq!(checkpoint_a, "a");
            assert_eq!(checkpoint_b, "b");
        }
        _ => panic!("expected compare"),
    }
}

#[test]
fn parse_memory_skill_commands() {
    assert!(matches!(parse(&["memory", "list"]).command, Command::Memory { cmd: MemoryCmd::List }));
    match parse(&["memory", "show", "ep-44"]).command {
        Command::Memory { cmd: MemoryCmd::Show { episode_id } } => assert_eq!(episode_id, "ep-44"),
        _ => panic!("expected show"),
    }
    assert!(matches!(parse(&["skill", "list"]).command, Command::Skill { cmd: SkillCmd::List }));
    match parse(&["skill", "inspect", "hotfix"]).command {
        Command::Skill { cmd: SkillCmd::Inspect { name } } => assert_eq!(name, "hotfix"),
        _ => panic!("expected inspect"),
    }
    match parse(&["skill", "run", "dep-upgrade"]).command {
        Command::Skill { cmd: SkillCmd::Run { name } } => assert_eq!(name, "dep-upgrade"),
        _ => panic!("expected run"),
    }
}

#[test]
fn parse_schedule_watch() {
    match parse(&["schedule", "daily", "check deps"]).command {
        Command::Schedule { frequency, objective } => {
            assert_eq!(frequency, "daily");
            assert_eq!(objective, "check deps");
        }
        _ => panic!("expected schedule"),
    }
    match parse(&["watch", "monitor logs"]).command {
        Command::Watch { objective } => assert_eq!(objective, "monitor logs"),
        _ => panic!("expected watch"),
    }
}

#[test]
fn parse_global_flags() {
    let cli = parse(&["--verbose", "--format", "json", "--profile", "strict", "status"]);
    assert!(cli.verbose);
    assert!(matches!(cli.format, OutputFormat::Json));
    assert_eq!(cli.profile, Some("strict".into()));
}

#[test]
fn parse_run_interactive_flag() {
    match parse(&["run", "-i", "fix auth"]).command {
        Command::Run { objective, interactive } => {
            assert_eq!(objective, "fix auth");
            assert!(interactive);
        }
        _ => panic!("expected run"),
    }
    match parse(&["run", "fix auth", "--interactive"]).command {
        Command::Run { interactive, .. } => assert!(interactive),
        _ => panic!("expected run"),
    }
    match parse(&["run", "fix auth"]).command {
        Command::Run { interactive, .. } => assert!(!interactive),
        _ => panic!("expected run"),
    }
}

#[test]
fn parse_spawn_default_count_and_inline_value() {
    match parse(&["creature", "spawn", "owl"]).command {
        Command::Creature { cmd: CreatureCmd::Spawn { name, count } } => {
            assert_eq!(name, "owl");
            assert_eq!(count, 1);
        }
        _ => panic!("expected spawn"),
    }
    match parse(&["creature", "spawn", "owl", "--count=7"]).command {
        Command::Creature { cmd: CreatureCmd::Spawn { count, .. } } => assert_eq!(count, 7),
        _ => panic!("expected spawn"),
    }
}

#[test]
fn parse_tui_optional_objective() {
    match parse(&["tui"]).command {
        Command::Tui { objective } => assert_eq!(objective, None),
        _ => panic!("expected tui"),
    }
    match parse(&["tui", "ship it"]).command {
        Command::Tui { objective } => assert_eq!(objective, Some("ship it".to_string())),
        _ => panic!("expected tui"),
    }
}

#[test]
fn parse_defaults_and_short_verbose() {
    let cli = parse(&["status"]);
    assert!(!cli.verbose);
    assert!(matches!(cli.format, OutputFormat::Human));
    assert_eq!(cli.profile, None);
    let cli = parse(&["status", "-v", "--format=json"]);
    assert!(cli.verbose);
    assert!(matches!(cli.format, OutputFormat::Json));
}

#[test]
fn parse_double_dash_makes_positional() {
    match parse(&["run", "--", "--not-a-flag"]).command {
        Command::Run { objective, .. } => assert_eq!(objective, "--not-a-flag"),
        _ => panic!("expected run"),
    }
}

#[test]
fn parse_errors() {
    assert!(matches!(try_parse(&[]), Err(CliError::MissingSubcommand)));
    assert!(matches!(try_parse(&["daemon"]), Err(CliError::MissingSubcommand)));
    match try_parse(&["launch"]) {
        Err(CliError::UnknownSubcommand(w)) => assert_eq!(w, "launch"),
        _ => panic!("expected unknown subcommand"),
    }
    match try_parse(&["daemon", "restart"]) {
        Err(CliError::UnknownSubcommand(w)) => assert_eq!(w, "restart"),
        _ => panic!("expected unknown subcommand"),
    }
    assert!(matches!(try_parse(&["run"]), Err(CliError::MissingArgument)));
    match try_parse(&["init", "extra"]) {
        Err(CliError::UnexpectedArgument(w)) => assert_eq!(w, "extra"),
        _ => panic!("expected unexpected argument"),
    }
    match try_parse(&["status", "--bogus"]) {
        Err(CliError::UnknownOption(w)) => assert_eq!(w, "--bogus"),
        _ => panic!("expected unknown option"),
    }
    match try_parse(&["status", "-x"]) {
        Err(CliError::UnknownOption(w)) => assert_eq!(w, "-x"),
        _ => panic!("expected unknown option"),
    }
    match try_parse(&["status", "--profile"]) {
        Err(CliError::MissingValue(w)) => assert_eq!(w, "--profile"),
        _ => panic!("expected missing value"),
    }
    match try_parse(&["status", "--format", "xml"]) {
        Err(CliError::InvalidValue(w)) => assert_eq!(w, "xml"),
        _ => panic!("expected invalid value"),
    }
    match try_parse(&["creature", "spawn", "raven", "--count", "-3"]) {
        Err(CliError::UnknownOption(_)) | Err(CliError::InvalidValue(_)) => {}
        _ => panic!("expected a refused count"),
    }
    match try_parse(&["creature", "spawn", "raven", "--count", "4294967296"]) {
        Err(CliError::InvalidValue(w)) => assert_eq!(w, "4294967296"),
        _ => panic!("expected invalid value"),
    }
    match try_parse(&["status", "-v", "--verbose"]) {
        Err(CliError::DuplicateOption(w)) => assert_eq!(w, "verbose"),
        _ => panic!("expected duplicate option"),
    }
    match try_parse(&["status", "-i"]) {
        Err(CliError::UnknownOption(w)) => assert_eq!(w, "--interactive"),
        _ => panic!("expected unknown option"),
    }
    match try_parse(&["status", "--count", "2"]) {
        Err(CliError::UnknownOption(w)) => assert_eq!(w, "--count"),
        _ => panic!("expected unknown option"),
    }
    assert!(matches!(try_parse(&["--help"]), Err(CliError::HelpRequested)));
    assert!(matches!(try_parse(&["-V"]), Err(CliError::VersionRequested)));
}

// ── Dispatch ─────────────────────────────────────────────────────

use chimera::commands::{dispatch_step, Step};
use chimera::harness::ExecutionMode;

fn said(cmd: Command) -> String {
    match dispatch_step(cmd) {
        Step::Say(line) => line,
        other => panic!("expected a line, got {other:?}"),
    }
}

#[test]
fn dispatch_stub_commands() {
    assert_eq!(said(Command::Init), "[stub] chimera init");
    assert_eq!(said(Command::Up), "[stub] chimera up");
    assert_eq!(said(Command::Down), "[stub] chimera down");
    assert_eq!(said(Command::Doctor), "[stub] chimera doctor");
    assert_eq!(said(Command::Status), "[stub] chimera status");
    assert_eq!(said(Command::Daemon { cmd: DaemonCmd::Start }), "[stub] daemon start");
    assert_eq!(said(Command::Daemon { cmd: DaemonCmd::Stop }), "[stub] daemon stop");
    assert_eq!(said(Command::Pack { name: "test".into() }), "[stub] pack: test");
    assert!(matches!(dispatch_step(Command::Session { cmd: SessionCmd::List }), Step::ListSessions));
    assert_eq!(
        said(Command::Session { cmd: SessionCmd::Resume { session_id: "s1".into() } }),
        "[info] resume is implicit; sessions are stateless files. s1"
    );
    let fork = dispatch_step(Command::Session {
        cmd: SessionCmd::Fork { session_id: "00000000-0000-0000-0000-000000000001".into() },
    });
    assert!(matches!(fork, Step::ForkSession { session_id } if session_id == "00000000-0000-0000-0000-000000000001"));
    assert_eq!(said(Command::Checkpoint { cmd: CheckpointCmd::Create }), "[stub] checkpoint create");
    assert_eq!(said(Command::Checkpoint { cmd: CheckpointCmd::List }), "[stub] checkpoint list");
    assert_eq!(said(Command::Rollback { checkpoint_id: "cp1".into() }), "[stub] rollback cp1");
    assert_eq!(said(Command::Replay { session_id: "s1".into() }), "[stub] replay s1");
}

#[test]
fn dispatch_creature_commands() {
    assert!(matches!(dispatch_step(Command::Creature { cmd: CreatureCmd::List }), Step::ListCreatures));
    assert_eq!(
        said(Command::Creature { cmd: CreatureCmd::Spawn { name: "raven".into(), count: 2 } }),
        "[info] creature spawn: raven x2 (runtime spawning not yet implemented)"
    );
    assert_eq!(
        said(Command::Creature { cmd: CreatureCmd::Inspect { instance: "m-1".into() } }),
        "[info] creature inspect: m-1 (runtime registry not yet implemented)"
    );
    assert_eq!(said(Command::Creature { cmd: CreatureCmd::Stop { instance: "m-1".into() } }), "[info] creature stop: m-1");
    assert_eq!(
        said(Command::Creature { cmd: CreatureCmd::Promote { instance: "m-1".into() } }),
        "[info] creature promote: m-1"
    );
    assert_eq!(said(Command::Creature { cmd: CreatureCmd::Leash { instance: "m-1".into() } }), "[info] creature leash: m-1");
}

#[test]
fn dispatch_tool_world_browser_phone() {
    assert!(matches!(dispatch_step(Command::Tool { cmd: ToolCmd::List }), Step::ListTools));
    assert!(matches!(
        dispatch_step(Command::Tool { cmd: ToolCmd::Inspect { name: "bash".into() } }),
        Step::InspectTool { name } if name == "bash"
    ));
    assert!(matches!(
        dispatch_step(Command::Tool { cmd: ToolCmd::Healthcheck { name: "mcp".into() } }),
        Step::HealthcheckTool { name } if name == "mcp"
    ));
    assert_eq!(said(Command::Tool { cmd: ToolCmd::Test { name: "git".into() } }), "[info] tool test: git (no dry-run backend)");
    assert_eq!(
        said(Command::Tool { cmd: ToolCmd::Disable { name: "comms".into() } }),
        "[info] tool disable: comms (not yet persisted)"
    );
    assert_eq!(said(Command::World { cmd: WorldCmd::List }), "[stub] world list");
    assert_eq!(said(Command::World { cmd: WorldCmd::Spawn { kind: "vm".into() } }), "[stub] world spawn vm");
    assert_eq!(said(Command::Browser { cmd: BrowserCmd::Open { target: "staging".into() } }), "[stub] browser open staging");
    assert_eq!(said(Command::Phone { cmd: PhoneCmd::Boot { device: "pixel8".into() } }), "[stub] phone boot pixel8");
}

#[test]
fn dispatch_policy_trace_eval_memory_skill() {
    assert_eq!(said(Command::Approve { cmd: ApproveCmd::Next }), "[stub] approve next");
    assert_eq!(said(Command::Approve { cmd: ApproveCmd::Plan }), "[stub] approve plan");
    assert_eq!(said(Command::Deny { call_id: "4".into() }), "[stub] deny 4");
    assert_eq!(said(Command::Policy { cmd: PolicyCmd::Show }), "[stub] policy show");
    assert_eq!(said(Command::Policy { cmd: PolicyCmd::Edit }), "[stub] policy edit");
    assert_eq!(said(Command::Autonomy { cmd: AutonomyCmd::SetLevel { level: "low".into() } }), "[stub] autonomy set low");
    assert_eq!(said(Command::Leash { target: "all".into() }), "[stub] leash all");
    assert_eq!(
        said(Command::Trace { cmd: TraceCmd::Live }),
        "[info] trace live: use the TUI (chimera tui) for live traces"
    );
    assert_eq!(
        said(Command::Trace { cmd: TraceCmd::Show { task_id: "t1".into() } }),
        "[info] trace show t1: per-task traces not yet indexed"
    );
    assert!(matches!(
        dispatch_step(Command::Trace { cmd: TraceCmd::Export { session_id: "00000000-0000-0000-0000-000000000002".into() } }),
        Step::ExportTrace { session_id } if session_id == "00000000-0000-0000-0000-000000000002"
    ));
    assert_eq!(said(Command::Eval { cmd: EvalCmd::Run { name: "auth".into() } }), "[stub] eval run auth");
    assert_eq!(
        said(Command::Eval { cmd: EvalCmd::Compare { checkpoint_a: "a".into(), checkpoint_b: "b".into() } }),
        "[stub] eval compare a b"
    );
    assert_eq!(said(Command::Memory { cmd: MemoryCmd::List }), "[stub] memory list");
    assert_eq!(said(Command::Memory { cmd: MemoryCmd::Show { episode_id: "e1".into() } }), "[stub] memory show e1");
    assert_eq!(said(Command::Skill { cmd: SkillCmd::List }), "[stub] skill list");
    assert_eq!(said(Command::Skill { cmd: SkillCmd::Inspect { name: "hotfix".into() } }), "[stub] skill inspect hotfix");
    assert_eq!(said(Command::Skill { cmd: SkillCmd::Run { name: "hotfix".into() } }), "[stub] skill run hotfix");
    assert_eq!(
        said(Command::Schedule { frequency: "daily".into(), objective: "check".into() }),
        "[stub] schedule daily: check"
    );
    assert_eq!(said(Command::Watch { objective: "monitor".into() }), "[stub] watch: monitor");
}

#[test]
fn dispatch_objectives_pick_their_mode() {
    let run = dispatch_step(Command::Run { objective: "ship".into(), interactive: false });
    assert!(matches!(run, Step::RunObjective { objective, mode: ExecutionMode::Run } if objective == "ship"));
    let plan = dispatch_step(Command::Plan { objective: "ship".into() });
    assert!(matches!(plan, Step::RunObjective { mode: ExecutionMode::Plan, .. }));
    let swarm = dispatch_step(Command::Swarm { objective: "ship".into() });
    assert!(matches!(swarm, Step::RunObjective { mode: ExecutionMode::Swarm, .. }));
    let chat = dispatch_step(Command::Run { objective: "ship".into(), interactive: true });
    assert!(matches!(chat, Step::Chat { objective: Some(o) } if o == "ship"));
    assert!(matches!(dispatch_step(Command::Tui { objective: None }), Step::Chat { objective: None }));
}
