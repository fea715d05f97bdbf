use chimera::agent::{run_config, DEFAULT_SYSTEM_PROMPT, PLAN_MODE_NOTE};
use chimera::handlers::{
    bash_finished, bash_timed_out, bash_wait_failed, edit_report, glob_pattern, glob_take, grep_file, grep_pattern,
    plan_tool, read_report, BashReport, EditReport, GrepHit, ToolArgs, ToolPlan, READ_CUT_NOTE,
};
use chimera::harness::ExecutionMode;
use chimera::help::help_lines;
use chimera::input::InputBar;
use chimera::message::StyleRole;
use chimera::tools::{git_status_entries, BuiltinTool};

fn no_args() -> ToolArgs {
    ToolArgs {
        path: None,
        content: None,
        old_text: None,
        new_text: None,
        command: None,
        cwd: None,
        timeout_secs: None,
        pattern: None,
        max_results: None,
    }
}

#[test]
fn plans_resolve_paths_against_the_root() {
    let root = Some("/repo".to_string());
    let args = ToolArgs { path: Some("src/a.rs".into()), ..no_args() };
    match plan_tool(BuiltinTool::ReadFile, &args, &root).unwrap() {
        ToolPlan::ReadFile { shown, path } => {
            assert_eq!(shown, "src/a.rs");
            assert_eq!(path, "/repo/src/a.rs");
        }
        other => panic!("unexpected plan {other:?}"),
    }
}

#[test]
fn missing_arguments_are_named_in_order() {
    let root = None;
    let err = plan_tool(BuiltinTool::WriteFile, &no_args(), &root).unwrap_err();
    assert_eq!(err, "missing or invalid 'path' argument");
    let args = ToolArgs { path: Some("a".into()), ..no_args() };
    let err = plan_tool(BuiltinTool::WriteFile, &args, &root).unwrap_err();
    assert_eq!(err, "missing or invalid 'content' argument");
    let args = ToolArgs { path: Some("a".into()), old_text: Some("x".into()), ..no_args() };
    let err = plan_tool(BuiltinTool::EditFile, &args, &root).unwrap_err();
    assert_eq!(err, "missing or invalid 'new_text' argument");
    let err = plan_tool(BuiltinTool::Grep, &no_args(), &root).unwrap_err();
    assert_eq!(err, "missing or invalid 'pattern' argument");
}

#[test]
fn bash_plan_defaults_cwd_and_timeout() {
    let args = ToolArgs { command: Some("ls".into()), ..no_args() };
    match plan_tool(BuiltinTool::Bash, &args, &Some("/r".into())).unwrap() {
        ToolPlan::Bash { command, cwd, timeout_secs } => {
            assert_eq!(command, "ls");
            assert_eq!(cwd, "/r");
            assert_eq!(timeout_secs, 120);
        }
        other => panic!("unexpected plan {other:?}"),
    }
    let args = ToolArgs { command: Some("ls".into()), cwd: Some("/w".into()), timeout_secs: Some(5), ..no_args() };
    match plan_tool(BuiltinTool::Bash, &args, &None).unwrap() {
        ToolPlan::Bash { cwd, timeout_secs, .. } => {
            assert_eq!(cwd, "/w");
            assert_eq!(timeout_secs, 5);
        }
        other => panic!("unexpected plan {other:?}"),
    }
    match plan_tool(BuiltinTool::GitStatus, &no_args(), &None).unwrap() {
        ToolPlan::GitStatus { cwd } => assert_eq!(cwd, "."),
        other => panic!("unexpected plan {other:?}"),
    }
    let args = ToolArgs { pattern: Some("x".into()), ..no_args() };
    match plan_tool(BuiltinTool::Grep, &args, &None).unwrap() {
        ToolPlan::Grep { max_results, base, .. } => {
            assert_eq!(max_results, 100);
            assert_eq!(base, ".");
        }
        other => panic!("unexpected plan {other:?}"),
    }
}

#[test]
fn read_report_cuts_large_files() {
    let small = read_report("a".into(), 5, "hello".into());
    assert_eq!(small.content, "hello");
    assert!(!small.truncated);
    let text = "x".repeat(100_010);
    let big = read_report("b".into(), 100_010, text);
    assert!(big.truncated);
    assert_eq!(big.content.len(), 100_000 + READ_CUT_NOTE.len());
    assert!(big.content.ends_with("[truncated: file is {len} bytes]"));
    assert_eq!(big.bytes, 100_010);
}

#[test]
fn write_then_read_roundtrip() {
    let r = read_report("a.txt".into(), 11, "hello world".into());
    assert_eq!(r.content, "hello world");
    assert_eq!(r.shown, "a.txt");
}

#[test]
fn edit_reports_follow_the_match_count() {
    match edit_report("b.txt", "foo bar foo", "bar", "baz") {
        EditReport::Applied { content, .. } => assert_eq!(content, "foo baz foo"),
        other => panic!("unexpected report {other:?}"),
    }
    match edit_report("c.txt", "x x", "x", "y") {
        EditReport::Refused { error, .. } => {
            assert_eq!(error, "old_text matches 2 times in c.txt; must be unique")
        }
        other => panic!("unexpected report {other:?}"),
    }
    match edit_report("d.txt", "abc", "q", "y") {
        EditReport::Refused { error, .. } => assert_eq!(error, "old_text not found in d.txt"),
        other => panic!("unexpected report {other:?}"),
    }
}

#[test]
fn bash_reports() {
    let r = bash_finished(Some(0), "bash-test-output\n".into(), String::new(), 7);
    assert!(r.ok());
    match &r {
        BashReport::Finished { stdout, duration_ms, .. } => {
            assert!(stdout.contains("bash-test-output"));
            assert_eq!(*duration_ms, 7);
        }
        _ => panic!("expected a finished report"),
    }
    let r = bash_finished(None, String::new(), "x".repeat(50_001), 1);
    assert!(!r.ok());
    match &r {
        BashReport::Finished { exit_code, stderr, .. } => {
            assert_eq!(*exit_code, -1);
            assert_eq!(stderr.len(), 50_000 + "\n[truncated: 50000 bytes]".len());
        }
        _ => panic!("expected a finished report"),
    }
    match bash_timed_out(3) {
        BashReport::Failed { exit_code, stderr } => {
            assert_eq!(exit_code, 124);
            assert_eq!(stderr, "timed out after 3s");
        }
        _ => panic!("expected a failure"),
    }
    assert!(!bash_wait_failed("gone".into()).ok());
}

#[test]
fn grep_matches_content() {
    let re = grep_pattern("findme").unwrap();
    let mut results: Vec<GrepHit> = Vec::new();
    grep_file(&re, "search.txt", "findme\nother", 100, &mut results);
    assert_eq!(results.len(), 1);
    assert_eq!(results[0].line, 1);
    assert_eq!(results[0].path, "search.txt");
    assert_eq!(results[0].content, "findme");
}

#[test]
fn grep_stops_at_the_limit() {
    let re = grep_pattern("a+").unwrap();
    let mut results: Vec<GrepHit> = Vec::new();
    grep_file(&re, "f", "a\nb\naa\naaa\n", 2, &mut results);
    let lines: Vec<usize> = results.iter().map(|h| h.line).collect();
    assert_eq!(lines, vec![1, 3]);
    grep_file(&re, "g", "a\n", 2, &mut results);
    assert_eq!(results.len(), 3);
}

#[test]
fn invalid_patterns_are_refused() {
    assert!(grep_pattern("foo(").unwrap_err().starts_with("invalid regex: "));
    assert!(glob_pattern("a[").unwrap_err().starts_with("invalid glob pattern: "));
}

#[test]
fn glob_finds_files() {
    let g = glob_pattern("*.rs").unwrap();
    assert!(g.selects("alpha.rs", "/tmp/x/alpha.rs"));
    assert!(!g.selects("beta.txt", "/tmp/x/beta.txt"));
}

#[test]
fn git_status_lines_become_entries() {
    let out = " M src/lib.rs\n?? new.txt\n\nA  added.rs\n";
    let entries = git_status_entries(out);
    assert_eq!(
        entries,
        vec![
            ("src/lib.rs".to_string(), "M".to_string()),
            ("new.txt".to_string(), "??".to_string()),
            ("added.rs".to_string(), "A".to_string()),
        ]
    );
    assert_eq!(git_status_entries("M"), vec![(String::new(), String::new())]);
}

#[test]
fn plan_mode_adds_its_note() {
    let c = run_config(ExecutionMode::Plan, 9, 0, 512);
    assert_eq!(c.system_prompt, format!("{DEFAULT_SYSTEM_PROMPT}{PLAN_MODE_NOTE}"));
    assert!(c.system_prompt.contains("You are in PLAN mode."));
    assert_eq!(c.max_iterations, 9);
    let r = run_config(ExecutionMode::Run, 40, 0, 8192);
    assert_eq!(r.system_prompt, DEFAULT_SYSTEM_PROMPT);
    assert_eq!(r.max_tokens, Some(8192));
}

#[test]
fn help_overlay_renders() {
    let lines = help_lines();
    assert_eq!(lines.len(), 26);
    assert_eq!(lines[0].spans[0].text, "Input");
    assert_eq!(lines[0].spans[0].style, StyleRole::Brand);
    assert_eq!(lines[1].spans[0].text, format!("  {:<20}", "Enter"));
    assert_eq!(lines[1].spans[1].text, "submit message / objective");
    assert_eq!(lines[3].spans[0].text, format!("  {:<20}", "← → / Home / End"));
}

#[test]
fn cursor_display_offset_counts_columns() {
    let mut input = InputBar::new();
    for c in "a漢b".chars() {
        input.insert_char(c);
    }
    assert_eq!(input.cursor_display_offset(), 4);
    input.cursor_left();
    assert_eq!(input.cursor_display_offset(), 3);
}

#[test]
fn glob_too_large_for_its_matcher_is_refused() {
    let huge = "?".repeat(400_000);
    let err = glob_pattern(&huge).unwrap_err();
    assert!(err.starts_with("invalid glob pattern: "));
}

#[test]
fn glob_take_keeps_selected_files_up_to_the_limit() {
    let g = glob_pattern("*.rs").unwrap();
    let mut matches: Vec<String> = Vec::new();
    assert!(!glob_take(&g, &mut matches, "a.rs".into(), "/x/a.rs"));
    assert!(!glob_take(&g, &mut matches, "b.txt".into(), "/x/b.txt"));
    assert_eq!(matches, vec!["a.rs".to_string()]);
    let mut full: Vec<String> = (0..199).map(|i| format!("f{i}.rs")).collect();
    assert!(glob_take(&g, &mut full, "last.rs".into(), "/x/last.rs"));
    assert_eq!(full.len(), 200);
    let mut found = Vec::new();
    let re = grep_pattern("a").unwrap();
    assert!(grep_file(&re, "f", "a\na\nb", 2, &mut found));
}
