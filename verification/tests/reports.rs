use chimera::agent::{AgentRunResult, DoneReason};
use chimera::cli::{Cli, CliError};
use chimera::creatures::{BuiltinCreatureRegistry, CreatureRegistry};
use chimera::message::{visible_range, Message};
use chimera::outside::Timestamp;
use chimera::report::{creature_line, run_summary, session_line, tool_inspect_lines, tool_line, trace_line};
use chimera::runner::Tui;
use chimera::session::session_id_arg;
use chimera::status::StatusInfo;
use chimera::tools::BuiltinTool;
use chimera::trace::{TraceEvent, TraceLevel};

#[test]
fn session_lines_pad_the_label() {
    let id = 0x67e5504410b1426f9247bb680e5fe0c8;
    assert_eq!(
        session_line(id, "demo", "ship it"),
        format!("  67e55044-10b1-426f-9247-bb680e5fe0c8  {:<20}  objective: ship it", "demo")
    );
}

#[test]
fn creature_lines_name_autonomy_and_temperament() {
    let raven = BuiltinCreatureRegistry.resolve("raven").unwrap();
    let line = creature_line(&raven);
    assert!(line.starts_with(&format!("  {:<12} ", "raven")));
    assert!(line.contains(" autonomy="));
    assert!(line.contains(" temperament="));
}

#[test]
fn tool_lines_show_access() {
    let d = BuiltinTool::Grep.descriptor();
    assert_eq!(tool_line(&d), format!("  {:<14} [{:<3}] {}", "grep", "ro", d.description));
    let lines = tool_inspect_lines(&BuiltinTool::Bash.descriptor());
    assert_eq!(lines[0], "name:        bash");
    assert_eq!(lines[2], "read_only:   false");
    assert_eq!(lines[3], "category:    LocalExecution");
}

fn event_at(secs: i64, nanos: u32) -> TraceEvent {
    TraceEvent {
        timestamp: Timestamp { secs, nanos },
        level: TraceLevel::Warn,
        session_id: 1,
        creature_id: None,
        span: "execute:raven".into(),
        message: "executing: apply changes".into(),
        fields: serde_json::Value::Null,
    }
}

#[test]
fn trace_lines_show_the_time_of_day() {
    let line = trace_line(&event_at(1_700_000_000 + 3_723, 45_600_000));
    let expected = format!("[23:15:23.045] {:<5} {:<24} {}", "warn", "execute:raven", "executing: apply changes");
    assert_eq!(line, expected);
    assert!(trace_line(&event_at(-1, 999_000_000)).starts_with("[23:59:59.999]"));
    assert!(trace_line(&event_at(86_399, 1_500_000_000)).starts_with("[23:59:60.500]"));
}

#[test]
fn run_summary_reports_counts() {
    let r = AgentRunResult {
        final_answer: None,
        steps: vec![],
        done_reason: DoneReason::MaxIterations,
        iterations: 3,
        total_prompt_tokens: 10,
        total_completion_tokens: 5,
    };
    assert_eq!(run_summary(&r), "iterations: 3  |  done: MaxIterations  |  tokens: 10+5");
}

#[test]
fn session_ids_parse_or_are_named_in_the_error() {
    assert_eq!(session_id_arg("67e55044-10b1-426f-9247-bb680e5fe0c8"), Ok(0x67e5504410b1426f9247bb680e5fe0c8));
    assert_eq!(session_id_arg("nope"), Err("invalid session id: nope".to_string()));
}

#[test]
fn tui_start_shows_the_objective() {
    let t = Tui::start(Some("fix it".into()), "m".into(), "p".into());
    assert_eq!(t.log.len(), 1);
    assert!(matches!(&t.log.messages[0], Message::User { text } if text == "fix it"));
    let blank = Tui::start(Some("   ".into()), "m".into(), "p".into());
    assert!(blank.log.is_empty());
    let none = Tui::start(None, "m".into(), "p".into());
    assert_eq!(none.objective, "");
}

#[test]
fn visible_range_keeps_the_tail() {
    assert_eq!(visible_range(5, 0, 10), (0, 5));
    assert_eq!(visible_range(30, 0, 10), (20, 30));
    assert_eq!(visible_range(30, 5, 10), (15, 25));
    assert_eq!(visible_range(30, 40, 10), (0, 0));
}

#[test]
fn header_preview_cuts_long_modes() {
    let mut info = StatusInfo::default();
    info.mode = "RUN".into();
    assert_eq!(info.header_preview(), "RUN");
    info.mode = "x".repeat(70);
    assert_eq!(info.header_preview(), format!("{}…", "x".repeat(60)));
}

#[test]
fn cli_errors_have_messages() {
    match Cli::try_parse_from(&["chimera", "frobnicate"]) {
        Err(e) => assert_eq!(e.message(), "unrecognized subcommand 'frobnicate'"),
        Ok(_) => panic!("expected an error"),
    }
    assert_eq!(CliError::MissingSubcommand.message(), "a subcommand is required");
}
