use chimera::input::InputBar;
use chimera::message::{wrap_text, Message, MessageLog, SystemKind};
use chimera::runner::{short_id, Tui};
use chimera::status::StatusInfo;

fn type_text(input: &mut InputBar, s: &str) {
    for c in s.chars() {
        input.insert_char(c);
    }
}

fn set_text(input: &mut InputBar, s: &str) {
    input.buffer = s.chars().collect();
    input.cursor = input.buffer.len();
}

#[test]
fn insert_and_backspace_roundtrip() {
    let mut input = InputBar::new();
    type_text(&mut input, "hello world");
    assert_eq!(input.text(), "hello world");
    assert_eq!(input.cursor, 11);
    input.cursor_end();
    for _ in 0..6 {
        input.backspace();
    }
    assert_eq!(input.text(), "hello");
}

#[test]
fn cursor_movement_word() {
    let mut input = InputBar::new();
    type_text(&mut input, "hello world test");
    input.cursor_home();
    input.cursor_word_right();
    assert_eq!(input.cursor, 6);
    input.cursor_word_right();
    assert_eq!(input.cursor, 12);
}

#[test]
fn history_navigation() {
    let mut input = InputBar::new();
    set_text(&mut input, "first");
    input.submit();
    set_text(&mut input, "second");
    input.submit();

    input.history_prev();
    assert_eq!(input.text(), "second");
    input.history_prev();
    assert_eq!(input.text(), "first");
    input.history_next();
    assert_eq!(input.text(), "second");
}

#[test]
fn slash_command_suggestions() {
    let mut input = InputBar::new();
    input.insert_char('/');
    input.insert_char('r');
    assert!(!input.suggestions.is_empty());
    assert!(input.suggestions.iter().any(|s| s.contains("run")));
}

#[test]
fn parse_command_extracts_name_and_args() {
    let mut input = InputBar::new();
    set_text(&mut input, "/model gpt-4o");
    let (name, args) = input.parse_command().unwrap();
    assert_eq!(name, "model");
    assert_eq!(args, "gpt-4o");
}

#[test]
fn insert_then_backspace_restores_the_buffer() {
    let mut input = InputBar::new();
    type_text(&mut input, "abc");
    input.cursor_left();
    input.insert_char('X');
    assert_eq!(input.text(), "abXc");
    input.backspace();
    assert_eq!(input.text(), "abc");
    assert_eq!(input.cursor, 2);
}

#[test]
fn backspace_at_start_changes_nothing() {
    let mut input = InputBar::new();
    type_text(&mut input, "ab");
    input.cursor_home();
    input.backspace();
    assert_eq!(input.text(), "ab");
    assert_eq!(input.cursor, 0);
}

#[test]
fn delete_char_removes_under_cursor() {
    let mut input = InputBar::new();
    type_text(&mut input, "abc");
    input.cursor_home();
    input.delete_char();
    assert_eq!(input.text(), "bc");
    assert_eq!(input.cursor, 0);
}

#[test]
fn cursor_word_left_skips_back_a_word() {
    let mut input = InputBar::new();
    type_text(&mut input, "hello world");
    input.cursor_word_left();
    assert_eq!(input.cursor, 6);
    input.cursor_word_left();
    assert_eq!(input.cursor, 0);
}

#[test]
fn cursor_byte_offset_counts_utf8_bytes() {
    let mut input = InputBar::new();
    type_text(&mut input, "héllo");
    assert_eq!(input.cursor_byte_offset(), 6);
    input.cursor_home();
    assert_eq!(input.cursor_byte_offset(), 0);
}

#[test]
fn submit_gives_the_text_and_clears() {
    let mut input = InputBar::new();
    type_text(&mut input, "  hi  ");
    let t = input.submit();
    assert_eq!(t, "  hi  ");
    assert!(input.is_empty());
    assert_eq!(input.cursor, 0);
    assert_eq!(input.history.len(), 1);
}

#[test]
fn submit_of_blank_keeps_no_history() {
    let mut input = InputBar::new();
    type_text(&mut input, "   ");
    let t = input.submit();
    assert_eq!(t, "   ");
    assert_eq!(input.history.len(), 0);
}

#[test]
fn plain_text_is_no_command() {
    let mut input = InputBar::new();
    set_text(&mut input, "model gpt");
    assert!(!input.is_command());
    assert_eq!(input.parse_command(), Some(("model".to_string(), "gpt".to_string())));
    set_text(&mut input, "/");
    assert!(input.parse_command().is_none());
    set_text(&mut input, "/quit");
    assert!(input.is_command());
    let (name, args) = input.parse_command().unwrap();
    assert_eq!(name, "quit");
    assert_eq!(args, "");
}

#[test]
fn wrap_text_respects_max_width() {
    let lines = wrap_text("hello world this is a test", 10);
    for l in &lines {
        assert!(l.len() <= 10, "line '{l}' is {} chars", l.len());
    }
    assert!(lines.len() > 1);
}

#[test]
fn wrap_text_handles_empty_string() {
    let lines = wrap_text("", 10);
    assert_eq!(lines, vec!["".to_string()]);
}

#[test]
fn wrap_text_handles_newlines() {
    let lines = wrap_text("line one\nline two", 80);
    assert_eq!(lines.len(), 2);
}

#[test]
fn wrap_text_joins_words_that_fit() {
    let lines = wrap_text("aa bb cc", 5);
    assert_eq!(lines, vec!["aa bb".to_string(), "cc".to_string()]);
}

#[test]
fn message_log_pushes_and_evicts() {
    let mut log = MessageLog::new(3);
    log.push(Message::User { text: "a".into() });
    log.push(Message::User { text: "b".into() });
    log.push(Message::User { text: "c".into() });
    log.push(Message::User { text: "d".into() });
    assert_eq!(log.len(), 3);
    match &log.messages[0] {
        Message::User { text } => assert_eq!(text, "b"),
        _ => panic!("expected a user message"),
    }
}

#[test]
fn message_log_scrolls() {
    let mut log = MessageLog::new(100);
    for i in 0..10 {
        log.push(Message::User { text: format!("msg {i}") });
    }
    assert!(log.at_bottom());
    log.scroll_up();
    assert!(!log.at_bottom());
    assert_eq!(log.scroll_offset, 1);
    log.scroll_down();
    assert!(log.at_bottom());
}

#[test]
fn message_log_scroll_down_at_bottom_stays() {
    let mut log = MessageLog::new(10);
    assert!(log.is_empty());
    log.scroll_down();
    assert_eq!(log.scroll_offset, 0);
    log.scroll_up();
    log.scroll_up();
    log.scroll_to_bottom();
    assert!(log.at_bottom());
}

#[test]
fn user_message_renders_with_label() {
    let msg = Message::User { text: "hello".into() };
    let lines = msg.to_lines(80);
    assert!(lines.len() >= 2);
}

#[test]
fn assistant_streaming_shows_cursor() {
    let msg = Message::Assistant { text: "thinking".into(), streaming: true };
    let lines = msg.to_lines(80);
    let header_str = format!("{:?}", lines[0]);
    assert!(header_str.contains("▌"));
}

#[test]
fn tool_call_renders_status_icon() {
    let msg = Message::ToolCall {
        id: "1".into(),
        name: "bash".into(),
        arguments: r#"{"command":"echo hi"}"#.into(),
        result: Some(r#"{"exit_code":0}"#.into()),
        ok: Some(true),
        duration_ms: Some(42),
        expanded: false,
    };
    let lines = msg.to_lines(80);
    assert!(!lines.is_empty());
}

#[test]
fn tool_call_expanded_shows_args_and_result() {
    let msg = Message::ToolCall {
        id: "1".into(),
        name: "bash".into(),
        arguments: r#"{"command":"echo hi"}"#.into(),
        result: Some(r#"{"exit_code":0}"#.into()),
        ok: Some(true),
        duration_ms: Some(42),
        expanded: true,
    };
    let lines = msg.to_lines(80);
    let joined = format!("{:?}", lines);
    assert!(joined.contains("args"));
    assert!(joined.contains("result"));
}

#[test]
fn divider_renders_dashes() {
    let msg = Message::Divider { label: "Iteration 2".into() };
    let lines = msg.to_lines(80);
    assert_eq!(lines.len(), 1);
}

#[test]
fn system_message_renders_icon() {
    let msg = Message::System { text: "done".into(), kind: SystemKind::Success };
    let lines = msg.to_lines(80);
    assert!(!lines.is_empty());
}

#[test]
fn estimated_lines_is_positive() {
    let msg = Message::User { text: "x".into() };
    assert!(msg.estimated_lines(80) >= 1);
}

#[test]
fn tui_initial_state() {
    let tui = Tui::new("test objective".into(), "gpt-4o".into(), "openai".into());
    assert_eq!(tui.objective, "test objective");
    assert_eq!(tui.status.model, "gpt-4o");
    assert!(!tui.should_quit);
    assert!(!tui.show_help);
}

#[test]
fn short_id_is_8_chars() {
    let id = short_id();
    assert_eq!(id.len(), 8);
}

#[test]
fn short_ids_are_hex() {
    let id = short_id();
    assert!(id.chars().all(|c| c.is_ascii_hexdigit()));
}

#[test]
fn iter_str_shows_progress() {
    let info = StatusInfo {
        provider: "p".into(),
        model: "m".into(),
        mode: "RUN".into(),
        prompt_tokens: 0,
        completion_tokens: 0,
        iteration: 3,
        max_iterations: 40,
        session_id: "abcd1234".into(),
        tool_calls: 0,
        running: false,
    };
    assert_eq!(info.iter_str(), "iter 3/40");
}

// ── Dashboard ────────────────────────────────────────────────────

use chimera::dashboard::{shell_grid_rows, ActiveView, App, CreatureRow, FEED_CAPACITY};
use chimera::runner::{KeyCode, KeyEvent};

fn press(code: KeyCode) -> KeyEvent {
    KeyEvent { code, ctrl: false, alt: false, press: true }
}

fn row(id: &str, world: &str) -> CreatureRow {
    CreatureRow {
        id: id.into(),
        role: "scout".into(),
        state: "running".into(),
        world: world.into(),
        confidence_bits: 0.5f64.to_bits(),
        tokens_used: 1200,
        last_action: "ls".into(),
    }
}

#[test]
fn dashboard_starts_on_the_main_view() {
    let app = App::new("s1".into(), "ship".into());
    assert_eq!(app.view, ActiveView::Dashboard);
    assert_eq!(app.mode, "RUN");
    assert_eq!(app.autonomy, "MEDIUM");
    assert!(app.feed.is_empty());
}

#[test]
fn dashboard_keys_cycle_views_and_select() {
    let mut app = App::new("s".into(), "o".into());
    app.creatures = vec![row("a", "w1"), row("b", "w2")];
    assert!(app.handle_key(press(KeyCode::Tab)));
    assert_eq!(app.view, ActiveView::CreatureInspector);
    app.handle_key(press(KeyCode::Tab));
    app.handle_key(press(KeyCode::Tab));
    assert_eq!(app.view, ActiveView::Dashboard);
    app.handle_key(press(KeyCode::Down));
    app.handle_key(press(KeyCode::Down));
    assert_eq!(app.selected_creature, 1);
    app.handle_key(press(KeyCode::Up));
    assert_eq!(app.selected_creature, 0);
    assert!(!app.handle_key(press(KeyCode::Char('z'))));
    app.handle_key(press(KeyCode::Char('q')));
    assert!(app.should_quit);
}

#[test]
fn dashboard_feed_keeps_the_newest_lines() {
    let mut app = App::new("s".into(), "o".into());
    for i in 0..(FEED_CAPACITY + 5) {
        app.push_feed("raven", &format!("msg {i}"));
    }
    assert_eq!(app.feed.len(), FEED_CAPACITY);
    assert_eq!(app.feed[0].message, "msg 5");
}

#[test]
fn shell_grid_rows_label_world_and_id() {
    let mut app = App::new("s".into(), "o".into());
    app.creatures = vec![row("raven-1", "wt-1")];
    let rows = shell_grid_rows(&app);
    assert_eq!(rows.len(), 1);
    assert_eq!(rows[0].label, "wt-1:raven-1");
    assert_eq!(rows[0].command, "ls");
    assert_eq!(rows[0].status, "running");
}

// ── Theme ────────────────────────────────────────────────────────

use chimera::message::StyleRole;
use chimera::theme::{Palette, Rgb, Styles};

#[test]
fn dark_palette_has_distinct_brand_colors() {
    let p = Palette::dark();
    assert_ne!(p.ember, p.teal);
    assert_ne!(p.ember, p.fg);
}

#[test]
fn light_palette_has_distinct_brand_colors() {
    let p = Palette::light();
    assert_ne!(p.ember, p.teal);
    assert_ne!(p.ember, p.fg);
}

#[test]
fn styles_build_from_palette() {
    let s = Styles::dark();
    let brand = s.brand();
    assert!(brand.fg.is_some());
    let err = s.error();
    assert!(err.fg.is_some());
}

#[test]
fn status_pills_have_bg() {
    let s = Styles::dark();
    assert!(s.status_pill_ok().bg.is_some());
    assert!(s.status_pill_warn().bg.is_some());
    assert!(s.status_pill_err().bg.is_some());
}

#[test]
fn roles_map_to_the_palette() {
    let s = Styles::new(Palette::light());
    assert_eq!(s.role(StyleRole::RoleUser).fg, Some(Rgb { r: 20, g: 110, b: 105 }));
    assert!(s.role(StyleRole::Brand).bold);
    assert_eq!(s.role(StyleRole::Plain).fg, None);
    assert!(s.highlight().reversed);
    assert_eq!(Palette::default(), Palette::dark());
}

// ── Dashboard views ──────────────────────────────────────────────

use chimera::dashboard::{ApprovalPrompt, TaskDisplayStatus, TaskRow};
use chimera::outside::Timestamp;
use chimera::views::{
    approval_view, creature_table, dashboard_keys, feed_lines, header_line, inspector_view,
    shell_grid_lines, state_tone_of, task_lines, Line as ViewLine, Tone,
};

fn texts(l: &ViewLine) -> Vec<String> {
    l.spans.iter().map(|s| s.text.clone()).collect()
}

fn creature(id: &str, role: &str, state: &str, world: &str, conf: f64, tokens: u64, last: &str) -> CreatureRow {
    CreatureRow {
        id: id.into(),
        role: role.into(),
        state: state.into(),
        world: world.into(),
        confidence_bits: conf.to_bits(),
        tokens_used: tokens,
        last_action: last.into(),
    }
}

fn sample_app() -> App {
    let mut app = App::new("test-session".into(), "Extract auth module and verify".into());
    app.mode = "SWARM".into();
    app.autonomy = "MEDIUM".into();
    app.repo = "~/work/app".into();
    app.worlds = "worktrees+vm".into();
    app.creatures = vec![
        creature("RAVEN-1", "recon", "running", "wt-ro-1", 0.84, 28000, "map auth"),
        creature("MANTIS-1", "patcher", "waiting", "wt-rw-1", 0.77, 21000, "needs approve"),
    ];
    app.tasks = vec![
        TaskRow { description: "map auth files".into(), status: TaskDisplayStatus::Complete },
        TaskRow { description: "patch extraction".into(), status: TaskDisplayStatus::InProgress },
        TaskRow { description: "run smoke test".into(), status: TaskDisplayStatus::Pending },
        TaskRow { description: "broken step".into(), status: TaskDisplayStatus::Failed },
    ];
    app.push_feed("RAVEN-1", "found token refresh path");
    app.push_feed("MANTIS-1", "requests approval: write 6 files");
    app
}

fn app_with_approval() -> App {
    let mut app = sample_app();
    app.approval = Some(ApprovalPrompt {
        request_id: "ap-0044".into(),
        actor: "MANTIS-1".into(),
        class: "YELLOW".into(),
        action: "Modify 6 files".into(),
        reason: "Extract auth kernel".into(),
        touched_resources: vec!["src/auth.rs".into(), "src/session.rs".into()],
        verification_steps: vec!["cargo test auth_refresh".into()],
        rollback_info: "checkpoint #18 ready".into(),
    });
    app
}

#[test]
fn dashboard_renders_without_panic() {
    let app = sample_app();
    let header = header_line(&app);
    assert_eq!(
        texts(&header),
        vec!["chimera", " :: ", "test-session", "    Mode: ", "SWARM", "    Autonomy: ", "MEDIUM"]
    );
    assert_eq!(header.spans[0].tone, Tone::Cyan);
    assert!(header.spans[0].bold);
    let table = creature_table(&app);
    assert_eq!(table.len(), 2);
    assert_eq!(table[0].tokens.text, "28k");
    assert_eq!(table[0].state.tone, Tone::Green);
    assert_eq!(table[1].state.tone, Tone::Yellow);
    assert_eq!(f64::from_bits(table[1].confidence_bits), 0.77);
    let tasks = task_lines(&app);
    let task_texts: Vec<String> = tasks.iter().map(|l| l.spans[0].text.clone()).collect();
    assert_eq!(
        task_texts,
        vec![" [x] map auth files", " [~] patch extraction", " [ ] run smoke test", " [!] broken step"]
    );
    assert_eq!(tasks[3].spans[0].tone, Tone::Red);
    let feed = feed_lines(&app);
    assert_eq!(feed.len(), 2);
    assert_eq!(feed[1].spans[1].text, "MANTIS-1");
    assert_eq!(feed[1].spans[3].text, "requests approval: write 6 files");
    let keys = texts(&dashboard_keys());
    assert_eq!(keys.len(), 14);
    assert_eq!(keys[0], "[a]");
    assert_eq!(keys[13], " quit");
}

#[test]
fn dashboard_renders_empty_app() {
    let app = App::new("empty".into(), "nothing".into());
    assert_eq!(texts(&header_line(&app))[2], "empty");
    assert!(creature_table(&app).is_empty());
    assert!(task_lines(&app).is_empty());
    assert!(feed_lines(&app).is_empty());
    assert!(shell_grid_lines(&app).is_empty());
}

#[test]
fn dashboard_renders_with_long_feed() {
    let mut app = sample_app();
    for i in 0..10 {
        app.push_feed("C", &format!("msg {}", i));
    }
    let feed = feed_lines(&app);
    assert_eq!(feed.len(), 6);
    assert_eq!(feed[0].spans[3].text, "msg 4");
    assert_eq!(feed[5].spans[3].text, "msg 9");
}

#[test]
fn feed_time_is_the_utc_time_of_day() {
    let mut app = App::new("s".into(), "o".into());
    app.push_feed("raven", "hello");
    // 2021-01-01T13:05:09Z
    app.feed[0].timestamp = Timestamp { secs: 1_609_506_309, nanos: 0 };
    let feed = feed_lines(&app);
    assert_eq!(feed[0].spans[0].text, " 13:05:09 ");
    assert_eq!(feed[0].spans[0].tone, Tone::DarkGray);
}

#[test]
fn state_tones_follow_the_state() {
    assert_eq!(state_tone_of("running"), Tone::Green);
    assert_eq!(state_tone_of("waiting"), Tone::Yellow);
    assert_eq!(state_tone_of("idle"), Tone::DarkGray);
    assert_eq!(state_tone_of("done"), Tone::White);
}

#[test]
fn inspector_renders_with_creature() {
    let app = sample_app();
    let view = inspector_view(&app).expect("a creature is selected");
    assert_eq!(view.title, " Creature: RAVEN-1 ");
    assert_eq!(view.info.len(), 4);
    assert_eq!(texts(&view.info[0]), vec!["ID:    ", "RAVEN-1"]);
    assert_eq!(texts(&view.info[3]), vec!["State: ", "running"]);
    assert_eq!(view.info[3].spans[1].tone, Tone::Yellow);
    assert_eq!(view.confidence_label.text, "Conf:  ");
    assert_eq!(f64::from_bits(view.confidence_bits), 0.84);
    assert_eq!(texts(&view.keys)[0], "[enter]");
}

#[test]
fn inspector_renders_no_creatures() {
    let app = App::new("s".into(), "o".into());
    assert!(inspector_view(&app).is_none());
}

#[test]
fn approval_renders_with_prompt() {
    let app = app_with_approval();
    let view = approval_view(&app).expect("a request is pending");
    assert_eq!(texts(&view.request[0]), vec!["Request: ", "ap-0044"]);
    assert_eq!(view.request[2].spans[1].tone, Tone::Yellow);
    let res: Vec<String> = view.resources.iter().map(|l| l.spans[0].text.clone()).collect();
    assert_eq!(res, vec!["  - src/auth.rs", "  - src/session.rs"]);
    assert_eq!(view.verification[0].spans[0].text, "  - cargo test auth_refresh");
    assert_eq!(view.rollback, "  checkpoint #18 ready");
    assert!(view.keys.spans[2].bold);
}

#[test]
fn approval_renders_no_prompt() {
    let app = App::new("s".into(), "o".into());
    assert!(approval_view(&app).is_none());
}

#[test]
fn shell_grid_lines_pad_label_and_command() {
    let app = sample_app();
    let lines = shell_grid_lines(&app);
    assert_eq!(lines.len(), 2);
    assert_eq!(lines[0].spans[0].text, format!(" {:20}", "wt-ro-1:RAVEN-1"));
    assert_eq!(lines[0].spans[1].text, format!("{:40}", "map auth"));
    assert_eq!(lines[1].spans[2].text, "waiting");
    assert!(lines[1].spans[2].bold);
}

// ── Agent updates ────────────────────────────────────────────────

use chimera::runner::AgentUpdate;

#[test]
fn agent_text_deltas_accumulate_in_one_streaming_message() {
    let mut tui = Tui::new("o".into(), "m".into(), "p".into());
    tui.apply_agent_update(AgentUpdate::TextDelta("Hel".into()));
    tui.apply_agent_update(AgentUpdate::TextDelta("lo".into()));
    assert!(tui.status.running);
    assert_eq!(tui.log.len(), 1);
    match tui.log.messages.back() {
        Some(Message::Assistant { text, streaming }) => {
            assert_eq!(text, "Hello");
            assert!(*streaming);
        }
        other => panic!("unexpected {other:?}"),
    }
    tui.apply_agent_update(AgentUpdate::TextDone);
    assert!(matches!(tui.log.messages.back(), Some(Message::Assistant { streaming: false, .. })));
    // After the turn is done, new text starts a new message.
    tui.apply_agent_update(AgentUpdate::TextDelta("again".into()));
    assert_eq!(tui.log.len(), 2);
}

#[test]
fn agent_tool_calls_are_numbered_and_completed() {
    let mut tui = Tui::new("o".into(), "m".into(), "p".into());
    tui.apply_agent_update(AgentUpdate::ToolCallStart { name: "bash".into(), arguments: "{}".into() });
    assert_eq!(tui.status.tool_calls, 1);
    tui.apply_agent_update(AgentUpdate::ToolCallResult {
        name: "grep".into(),
        result: "ignored".into(),
        ok: true,
        duration_ms: 3,
    });
    match tui.log.messages.back() {
        Some(Message::ToolCall { id, result, ok, .. }) => {
            assert_eq!(id, "tc-1");
            assert!(result.is_none());
            assert!(ok.is_none());
        }
        other => panic!("unexpected {other:?}"),
    }
    tui.apply_agent_update(AgentUpdate::ToolCallResult {
        name: "bash".into(),
        result: "done".into(),
        ok: true,
        duration_ms: 7,
    });
    match tui.log.messages.back() {
        Some(Message::ToolCall { result, ok, duration_ms, .. }) => {
            assert_eq!(result.as_deref(), Some("done"));
            assert_eq!(*ok, Some(true));
            assert_eq!(*duration_ms, Some(7));
        }
        other => panic!("unexpected {other:?}"),
    }
}

#[test]
fn agent_iterations_tokens_and_completion_update_the_status() {
    let mut tui = Tui::new("o".into(), "m".into(), "p".into());
    tui.apply_agent_update(AgentUpdate::Iteration { n: 3 });
    assert_eq!(tui.status.iteration, 3);
    assert!(matches!(tui.log.messages.back(), Some(Message::Divider { label }) if label == "Iteration 3"));
    tui.apply_agent_update(AgentUpdate::Tokens { prompt: 120, completion: 45 });
    assert_eq!(tui.status.prompt_tokens, 120);
    assert_eq!(tui.status.completion_tokens, 45);
    tui.agent_done();
    assert!(!tui.status.running);
    assert!(matches!(
        tui.log.messages.back(),
        Some(Message::System { text, kind: SystemKind::Success }) if text == "Agent run complete."
    ));
}

#[test]
fn dark_styles_dim_brand_and_role_colors() {
    let s = Styles::dark();
    assert_eq!(s.brand_dim().fg, Some(Rgb { r: 160, g: 82, b: 45 }));
    assert_eq!(s.role_system().fg, Some(Rgb { r: 120, g: 117, b: 116 }));
    assert_eq!(s.role_tool().fg, Some(Rgb { r: 168, g: 165, b: 163 }));
    assert!(!s.role_tool().bold);
    assert_eq!(s.role_tool().bg, None);
}

#[test]
fn ctrl_q_quits_like_ctrl_c() {
    let mut tui = Tui::new("o".into(), "m".into(), "p".into());
    tui.handle_key(KeyEvent { code: KeyCode::Char('x'), ctrl: false, alt: false, press: true });
    let submitted = tui.handle_key(KeyEvent { code: KeyCode::Char('q'), ctrl: true, alt: false, press: true });
    assert!(submitted.is_none());
    assert!(tui.should_quit);
    assert_eq!(tui.input.buffer, vec!['x']);
}

use chimera::runner::SubmitOutcome;

#[test]
fn local_commands_echo_the_line_first() {
    let mut tui = Tui::new("o".into(), "m".into(), "p".into());
    assert_eq!(tui.handle_submit("/help".into()), SubmitOutcome::Continue);
    assert!(tui.show_help);
    assert_eq!(tui.log.messages.len(), 1);
    assert!(matches!(&tui.log.messages[0], Message::User { text } if text == "/help"));
    assert_eq!(tui.handle_submit("  /quit ".into()), SubmitOutcome::Quit);
    assert_eq!(tui.log.messages.len(), 2);
    assert!(matches!(&tui.log.messages[1], Message::User { text } if text == "  /quit "));
}
