//! The interactive chat session's state and its reactions to keys, agent
//! updates and submitted text. The terminal loop that reads events and draws
//! frames lives with the front end; it hands each event here.

use vstd::prelude::*;

use crate::input::{fits, inserted, removed, word_left, word_right, InputBar, submitted_history, suggestions_for};
use crate::message::{
    last_index, lemma_pushed_view, messages_view, pushed, Message, MessageLog, MessageView, SystemKind,
};
use crate::status::StatusInfo;
use crate::outside::new_id;
use crate::text::{
    chars_of, decimal, decimal_of, is_blank, lemma_uuid_text_len, same_chars, string_of, trim, trim_chars,
    uuid_string, uuid_text,
};

verus! {

/// Number of messages the chat log keeps.
pub const LOG_CAPACITY: usize = 500;

/// Number of lines a page scroll moves.
pub const PAGE_SCROLL: usize = 10;

/// The color theme of the chat.
#[derive(Debug, Clone, Copy, PartialEq, Eq, Structural)]
pub enum ThemeKind {
    Dark,
    Light,
}

/// The keys the chat reacts to.
#[derive(Debug, Clone, Copy, PartialEq, Eq, Structural)]
pub enum KeyCode {
    Enter,
    Char(char),
    Up,
    Down,
    PageUp,
    PageDown,
    Backspace,
    Delete,
    Left,
    Right,
    Home,
    End,
    Esc,
    Tab,
    Other,
}

/// A keyboard event: the key, its modifiers, and whether it is a press (as
/// opposed to a repeat or a release).
#[derive(Debug, Clone, Copy, PartialEq, Eq, Structural)]
pub struct KeyEvent {
    pub code: KeyCode,
    pub ctrl: bool,
    pub alt: bool,
    pub press: bool,
}

/// Updates pushed from the agent loop into the chat.
#[derive(Debug, Clone)]
pub enum AgentUpdate {
    /// Incremental streaming text from the model.
    TextDelta(String),
    /// The model finished a text turn.
    TextDone,
    /// A tool call started.
    ToolCallStart { name: String, arguments: String },
    /// A tool call completed.
    ToolCallResult { name: String, result: String, ok: bool, duration_ms: u64 },
    /// An iteration boundary.
    Iteration { n: usize },
    /// A system status message.
    System { text: String, kind: SystemKind },
    /// Token usage update.
    Tokens { prompt: u64, completion: u64 },
}

/// What the chat asks of its front end after a submitted line.
#[derive(Debug, Clone, Copy, PartialEq, Eq, Structural)]
pub enum SubmitOutcome {
    /// Keep running.
    Continue,
    /// Leave the session.
    Quit,
}

/// The interactive chat session state.
pub struct Tui {
    pub theme: ThemeKind,
    pub log: MessageLog,
    pub input: InputBar,
    pub status: StatusInfo,
    pub objective: String,
    pub should_quit: bool,
    pub show_help: bool,
    /// Width hint for text wrapping (updated on resize).
    pub width: usize,
}

/// A short session id: the first eight characters of the hyphenated form of
/// a fresh random UUID.
pub fn short_id() -> (s: String)
    ensures
        s@.len() == 8,
        exists|id: u128| s@ == #[trigger] uuid_text(id).subrange(0, 8),
{
    let id = new_id();
    let full = chars_of(uuid_string(id).as_str());
    proof {
        lemma_uuid_text_len(id);
    }
    let mut head: Vec<char> = Vec::new();
    let mut i: usize = 0;
    while i < 8
        invariant
            full@ == uuid_text(id),
            full@.len() == 36,
            i <= 8,
            head@ == full@.subrange(0, i as int),
        decreases 8 - i,
    {
        head.push(full[i]);
        i = i + 1;
        proof {
            assert(full@.subrange(0, i as int) =~= full@.subrange(0, i - 1).push(full@[i - 1]));
        }
    }
    string_of(&head)
}

/// The log (as views) after an agent update; `tool_calls` is the tool-call
/// count after the update.
pub open spec fn log_after_update(
    msgs: Seq<MessageView>,
    cap: nat,
    u: AgentUpdateView,
    tool_calls: u64,
) -> Seq<MessageView> {
    match u {
        AgentUpdateView::TextDelta(t) => {
            let fresh = pushed(msgs, cap, MessageView::Assistant { text: t, streaming: true });
            if msgs.len() > 0 {
                match msgs.last() {
                    MessageView::Assistant { text, streaming } => if streaming {
                        msgs.drop_last().push(MessageView::Assistant { text: text + t, streaming: true })
                    } else {
                        fresh
                    },
                    _ => fresh,
                }
            } else {
                fresh
            }
        },
        AgentUpdateView::TextDone => if msgs.len() > 0 {
            match msgs.last() {
                MessageView::Assistant { text, .. } => msgs.drop_last().push(
                    MessageView::Assistant { text, streaming: false },
                ),
                _ => msgs,
            }
        } else {
            msgs
        },
        AgentUpdateView::ToolCallStart { name, arguments } => pushed(
            msgs,
            cap,
            MessageView::ToolCall {
                id: "tc-"@ + decimal(tool_calls as nat),
                name,
                arguments,
                result: None,
                ok: None,
                duration_ms: None,
                expanded: false,
            },
        ),
        AgentUpdateView::ToolCallResult { name, result, ok, duration_ms } => if msgs.len() > 0 {
            match msgs.last() {
                MessageView::ToolCall { id, name: tn, arguments, expanded, .. } => if tn == name {
                    msgs.drop_last().push(
                        MessageView::ToolCall {
                            id,
                            name: tn,
                            arguments,
                            result: Some(result),
                            ok: Some(ok),
                            duration_ms: Some(duration_ms),
                            expanded,
                        },
                    )
                } else {
                    msgs
                },
                _ => msgs,
            }
        } else {
            msgs
        },
        AgentUpdateView::Iteration { n } => pushed(
            msgs,
            cap,
            MessageView::Divider { label: "Iteration "@ + decimal(n as nat) },
        ),
        AgentUpdateView::System { text, kind } => pushed(
            msgs,
            cap,
            MessageView::System { text, kind },
        ),
        AgentUpdateView::Tokens { .. } => msgs,
    }
}

/// An agent update as plain values.
pub enum AgentUpdateView {
    TextDelta(Seq<char>),
    TextDone,
    ToolCallStart { name: Seq<char>, arguments: Seq<char> },
    ToolCallResult { name: Seq<char>, result: Seq<char>, ok: bool, duration_ms: u64 },
    Iteration { n: usize },
    System { text: Seq<char>, kind: SystemKind },
    Tokens { prompt: u64, completion: u64 },
}

impl AgentUpdate {
    pub open spec fn view(&self) -> AgentUpdateView {
        match *self {
            AgentUpdate::TextDelta(t) => AgentUpdateView::TextDelta(t@),
            AgentUpdate::TextDone => AgentUpdateView::TextDone,
            AgentUpdate::ToolCallStart { name, arguments } => AgentUpdateView::ToolCallStart {
                name: name@,
                arguments: arguments@,
            },
            AgentUpdate::ToolCallResult { name, result, ok, duration_ms } =>
                AgentUpdateView::ToolCallResult { name: name@, result: result@, ok, duration_ms },
            AgentUpdate::Iteration { n } => AgentUpdateView::Iteration { n },
            AgentUpdate::System { text, kind } => AgentUpdateView::System { text: text@, kind },
            AgentUpdate::Tokens { prompt, completion } => AgentUpdateView::Tokens {
                prompt,
                completion,
            },
        }
    }
}

/// The buffer and cursor after an editing key.
pub open spec fn edited(buf: Seq<char>, cur: int, key: KeyEvent) -> (Seq<char>, int) {
    match key.code {
        KeyCode::Backspace => if cur > 0 {
            (removed(buf, cur - 1), cur - 1)
        } else {
            (buf, cur)
        },
        KeyCode::Delete => if cur < buf.len() {
            (removed(buf, cur), cur)
        } else {
            (buf, cur)
        },
        KeyCode::Left => if key.alt {
            (buf, word_left(buf, cur))
        } else if cur > 0 {
            (buf, cur - 1)
        } else {
            (buf, 0)
        },
        KeyCode::Right => if key.alt {
            (buf, word_right(buf, cur))
        } else if cur < buf.len() {
            (buf, cur + 1)
        } else {
            (buf, cur)
        },
        KeyCode::Home => (buf, 0),
        KeyCode::End => (buf, buf.len() as int),
        KeyCode::Char(c) => (inserted(buf, cur, c), cur + 1),
        _ => (buf, cur),
    }
}

/// Whether a key toggles the help overlay off while it is shown.
pub open spec fn closes_help(code: KeyCode) -> bool {
    code == KeyCode::Char('?') || code == KeyCode::Esc || code == KeyCode::Char('q')
}

/// Whether a key quits the chat: Ctrl+C or Ctrl+Q.
pub open spec fn is_quit_key(key: KeyEvent) -> bool {
    key.ctrl && (key.code == KeyCode::Char('c') || key.code == KeyCode::Char('q'))
}

/// Whether a key is handled globally, before the help overlay and the input.
pub open spec fn is_global_key(key: KeyEvent) -> bool {
    is_quit_key(key) || (key.ctrl && key.code == KeyCode::Char('l'))
}

/// Whether a key edits the input or moves its cursor.
pub open spec fn is_edit_key(key: KeyEvent) -> bool {
    match key.code {
        KeyCode::Backspace | KeyCode::Delete | KeyCode::Left | KeyCode::Right | KeyCode::Home
        | KeyCode::End => true,
        KeyCode::Char(c) => c != '?' && !(c == ' ' && key.ctrl),
        _ => false,
    }
}

/// The note shown when plain text is submitted with no agent connected.
pub open spec fn no_backend_note() -> Seq<char> {
    "No agent backend connected. Run via `chimera run --interactive` to connect the agent loop."@
}

impl Tui {
    /// The session's invariant.
    pub open spec fn wf(&self) -> bool {
        &&& self.log.wf()
        &&& self.input.wf()
        &&& self.log.capacity == LOG_CAPACITY
    }

    /// Create a session for an objective and a model.
    pub fn new(objective: String, model: String, provider: String) -> (t: Self)
        ensures
            t.wf(),
            t.theme == ThemeKind::Dark,
            t.log.messages@.len() == 0,
            t.input.buffer@.len() == 0,
            t.status.provider == provider,
            t.status.model == model,
            t.status.mode@ == "RUN"@,
            t.status.prompt_tokens == 0,
            t.status.completion_tokens == 0,
            t.status.iteration == 0,
            t.status.max_iterations == 40,
            t.status.session_id@.len() == 8,
            t.status.tool_calls == 0,
            !t.status.running,
            t.objective == objective,
            !t.should_quit,
            !t.show_help,
            t.width == 80,
    {
        Tui {
            theme: ThemeKind::Dark,
            log: MessageLog::new(LOG_CAPACITY),
            input: InputBar::new(),
            status: StatusInfo {
                provider,
                model,
                mode: String::from_str("RUN"),
                prompt_tokens: 0,
                completion_tokens: 0,
                iteration: 0,
                max_iterations: 40,
                session_id: short_id(),
                tool_calls: 0,
                running: false,
            },
            objective,
            should_quit: false,
            show_help: false,
            width: 80,
        }
    }

    /// Open a session: the objective given (or none), with the objective
    /// shown as the user's first message unless it is blank.
    pub fn start(initial: Option<String>, model: String, provider: String) -> (t: Self)
        ensures
            t.wf(),
            t.objective@ == match initial {
                Some(o) => o@,
                None => Seq::<char>::empty(),
            },
            t.status.model == model,
            t.status.provider == provider,
            !t.should_quit,
            !t.show_help,
            messages_view(t.log.messages@) == match initial {
                Some(o) => if trim(o@).len() > 0 {
                    seq![MessageView::User { text: o@ }]
                } else {
                    Seq::<MessageView>::empty()
                },
                None => Seq::<MessageView>::empty(),
            },
    {
        let objective = match &initial {
            Some(o) => o.clone(),
            None => String::new(),
        };
        let mut t = Tui::new(objective, model, provider);
        match initial {
            Some(o) => {
                if trim_chars(&chars_of(o.as_str())).len() > 0 {
                    let ghost before = messages_view(t.log.messages@);
                    t.log.push(Message::User { text: o });
                    proof {
                        assert(before =~= Seq::<MessageView>::empty());
                    }
                }
            },
            None => {},
        }
        t
    }

    fn scroll_up_by(&mut self, n: usize)
        requires
            old(self).wf(),
        ensures
            final(self).wf(),
            final(self).log.messages == old(self).log.messages,
            final(self).log.scroll_offset == if old(self).log.scroll_offset + n <= last_index(
                old(self).log.messages@.len(),
            ) {
                old(self).log.scroll_offset + n
            } else if old(self).log.scroll_offset <= last_index(old(self).log.messages@.len()) {
                last_index(old(self).log.messages@.len()) as int
            } else {
                old(self).log.scroll_offset as int
            },
            final(self).input == old(self).input,
            final(self).status == old(self).status,
            final(self).theme == old(self).theme,
            final(self).show_help == old(self).show_help,
            final(self).should_quit == old(self).should_quit,
            final(self).objective == old(self).objective,
            final(self).width == old(self).width,
    {
        let mut i: usize = 0;
        while i < n
            invariant
                self.wf(),
                i <= n,
                self.log.messages == old(self).log.messages,
                self.log.scroll_offset == if old(self).log.scroll_offset + i <= last_index(
                    self.log.messages@.len(),
                ) {
                    old(self).log.scroll_offset + i
                } else {
                    last_index(self.log.messages@.len()) as int
                },
                self.input == old(self).input,
                self.status == old(self).status,
                self.theme == old(self).theme,
                self.show_help == old(self).show_help,
                self.should_quit == old(self).should_quit,
                self.objective == old(self).objective,
                self.width == old(self).width,
            decreases n - i,
        {
            self.log.scroll_up();
            i = i + 1;
        }
    }

    fn scroll_down_by(&mut self, n: usize)
        requires
            old(self).wf(),
        ensures
            final(self).wf(),
            final(self).log.messages == old(self).log.messages,
            final(self).log.scroll_offset == if old(self).log.scroll_offset >= n {
                old(self).log.scroll_offset - n
            } else {
                0
            },
            final(self).input == old(self).input,
            final(self).status == old(self).status,
            final(self).theme == old(self).theme,
            final(self).show_help == old(self).show_help,
            final(self).should_quit == old(self).should_quit,
            final(self).objective == old(self).objective,
            final(self).width == old(self).width,
    {
        let mut i: usize = 0;
        while i < n
            invariant
                self.wf(),
                i <= n,
                self.log.messages == old(self).log.messages,
                self.log.scroll_offset == if old(self).log.scroll_offset >= i {
                    old(self).log.scroll_offset - i
                } else {
                    0
                },
                self.input == old(self).input,
                self.status == old(self).status,
                self.theme == old(self).theme,
                self.show_help == old(self).show_help,
                self.should_quit == old(self).should_quit,
                self.objective == old(self).objective,
                self.width == old(self).width,
            decreases n - i,
        {
            self.log.scroll_down();
            i = i + 1;
        }
    }

    /// Apply an agent update to the log and the status.
    pub fn apply_agent_update(&mut self, update: AgentUpdate)
        requires
            old(self).wf(),
            old(self).status.tool_calls < u64::MAX,
        ensures
            final(self).wf(),
            final(self).status.running,
            final(self).status.tool_calls == match update {
                AgentUpdate::ToolCallStart { .. } => old(self).status.tool_calls + 1,
                _ => old(self).status.tool_calls as int,
            },
            final(self).status.iteration == match update {
                AgentUpdate::Iteration { n } => n,
                _ => old(self).status.iteration,
            },
            final(self).status.prompt_tokens == match update {
                AgentUpdate::Tokens { prompt, .. } => prompt,
                _ => old(self).status.prompt_tokens,
            },
            final(self).status.completion_tokens == match update {
                AgentUpdate::Tokens { completion, .. } => completion,
                _ => old(self).status.completion_tokens,
            },
            messages_view(final(self).log.messages@) == log_after_update(
                messages_view(old(self).log.messages@),
                LOG_CAPACITY as nat,
                update.view(),
                final(self).status.tool_calls,
            ),
            final(self).input == old(self).input,
            final(self).theme == old(self).theme,
            final(self).show_help == old(self).show_help,
            final(self).should_quit == old(self).should_quit,
            final(self).objective == old(self).objective,
            final(self).width == old(self).width,
    {
        self.status.running = true;
        let ghost m0 = self.log.messages@;
        let ghost v0 = messages_view(m0);
        match update {
            AgentUpdate::TextDelta(text) => {
                let len = self.log.messages.len();
                let last_streaming = len > 0 && match &self.log.messages[len - 1] {
                    Message::Assistant { streaming, .. } => *streaming,
                    _ => false,
                };
                if last_streaming {
                    let last = self.log.messages.pop_back();
                    match last {
                        Some(Message::Assistant { text: mut existing, streaming }) => {
                            existing.append(text.as_str());
                            self.log.messages.push_back(Message::Assistant { text: existing, streaming });
                            assert(messages_view(self.log.messages@) =~= v0.drop_last().push(
                                self.log.messages@.last().view(),
                            ));
                        },
                        _ => {},
                    }
                } else {
                    let m = Message::Assistant { text, streaming: true };
                    self.log.push(m);
                    proof {
                        lemma_pushed_view(m0, LOG_CAPACITY as nat, m);
                    }
                }
            },
            AgentUpdate::TextDone => {
                let len = self.log.messages.len();
                let is_assistant = len > 0 && match &self.log.messages[len - 1] {
                    Message::Assistant { .. } => true,
                    _ => false,
                };
                if is_assistant {
                    let last = self.log.messages.pop_back();
                    match last {
                        Some(Message::Assistant { text, .. }) => {
                            self.log.messages.push_back(Message::Assistant { text, streaming: false });
                            assert(messages_view(self.log.messages@) =~= v0.drop_last().push(
                                self.log.messages@.last().view(),
                            ));
                        },
                        _ => {},
                    }
                }
            },
            AgentUpdate::ToolCallStart { name, arguments } => {
                self.status.tool_calls = self.status.tool_calls + 1;
                let digits = decimal_of(self.status.tool_calls);
                let id = String::from_str("tc-").concat(string_of(&digits).as_str());
                let m = Message::ToolCall {
                    id,
                    name,
                    arguments,
                    result: None,
                    ok: None,
                    duration_ms: None,
                    expanded: false,
                };
                self.log.push(m);
                proof {
                    lemma_pushed_view(m0, LOG_CAPACITY as nat, m);
                }
            },
            AgentUpdate::ToolCallResult { name, result, ok, duration_ms } => {
                let len = self.log.messages.len();
                let matches_last = len > 0 && match &self.log.messages[len - 1] {
                    Message::ToolCall { name: tn, .. } => *tn == name,
                    _ => false,
                };
                if matches_last {
                    let last = self.log.messages.pop_back();
                    match last {
                        Some(Message::ToolCall { id, name: tn, arguments, expanded, .. }) => {
                            self.log.messages.push_back(
                                Message::ToolCall {
                                    id,
                                    name: tn,
                                    arguments,
                                    result: Some(result),
                                    ok: Some(ok),
                                    duration_ms: Some(duration_ms),
                                    expanded,
                                },
                            );
                            assert(messages_view(self.log.messages@) =~= v0.drop_last().push(
                                self.log.messages@.last().view(),
                            ));
                        },
                        _ => {},
                    }
                }
            },
            AgentUpdate::Iteration { n } => {
                self.status.iteration = n;
                let digits = decimal_of(n as u64);
                let label = String::from_str("Iteration ").concat(string_of(&digits).as_str());
                let m = Message::Divider { label };
                self.log.push(m);
                proof {
                    lemma_pushed_view(m0, LOG_CAPACITY as nat, m);
                }
            },
            AgentUpdate::System { text, kind } => {
                let m = Message::System { text, kind };
                self.log.push(m);
                proof {
                    lemma_pushed_view(m0, LOG_CAPACITY as nat, m);
                }
            },
            AgentUpdate::Tokens { prompt, completion } => {
                self.status.prompt_tokens = prompt;
                self.status.completion_tokens = completion;
            },
        }
    }
    /// React to a key. Returns the text to hand to the agent when the key
    /// submits a non-blank line.
    pub fn handle_key(&mut self, key: KeyEvent) -> (submitted: Option<String>)
        requires
            old(self).wf(),
            fits(old(self).input.buffer@.push(' ')),
        ensures
            final(self).wf(),
            final(self).objective == old(self).objective,
            final(self).width == old(self).width,
            final(self).status == old(self).status,
            !key.press ==> *final(self) == *old(self) && submitted is None,
            key.press && is_quit_key(key) ==> {
                &&& final(self).should_quit
                &&& final(self).theme == old(self).theme
                &&& final(self).show_help == old(self).show_help
                &&& final(self).input == old(self).input
                &&& final(self).log == old(self).log
                &&& submitted is None
            },
            key.press && key.ctrl && key.code == KeyCode::Char('l') ==> {
                &&& final(self).theme == if old(self).theme == ThemeKind::Dark {
                    ThemeKind::Light
                } else {
                    ThemeKind::Dark
                }
                &&& final(self).should_quit == old(self).should_quit
                &&& final(self).show_help == old(self).show_help
                &&& final(self).input == old(self).input
                &&& final(self).log == old(self).log
                &&& submitted is None
            },
            key.press && !is_global_key(key) && old(self).show_help ==> {
                &&& final(self).show_help == !closes_help(key.code)
                &&& final(self).theme == old(self).theme
                &&& final(self).should_quit == old(self).should_quit
                &&& final(self).input == old(self).input
                &&& final(self).log == old(self).log
                &&& submitted is None
            },
            key.press && !is_global_key(key) && !old(self).show_help ==> {
                &&& final(self).theme == old(self).theme
                &&& final(self).should_quit == old(self).should_quit
                &&& final(self).show_help == (key.code == KeyCode::Char('?'))
                &&& key.code == KeyCode::Enter ==> {
                    &&& final(self).input.buffer@.len() == 0
                    &&& final(self).input.cursor == 0
                    &&& final(self).input.history_view() == submitted_history(
                        old(self).input.history_view(),
                        old(self).input.buffer@,
                    )
                    &&& final(self).log == old(self).log
                    &&& if is_blank(old(self).input.buffer@) {
                        submitted is None
                    } else {
                        submitted matches Some(t) && t@ == old(self).input.buffer@
                    }
                }
                &&& key.code == KeyCode::Up ==> final(self).log.messages == old(self).log.messages
                    && final(self).log.scroll_offset == if old(self).log.scroll_offset
                    < last_index(old(self).log.messages@.len()) {
                    old(self).log.scroll_offset + 1
                } else {
                    old(self).log.scroll_offset as int
                }
                &&& key.code == KeyCode::Down ==> final(self).log.messages == old(self).log.messages
                    && final(self).log.scroll_offset == if old(self).log.scroll_offset > 0 {
                    old(self).log.scroll_offset - 1
                } else {
                    0
                }
                &&& key.code == KeyCode::PageUp ==> final(self).log.messages
                    == old(self).log.messages && final(self).log.scroll_offset == if old(
                    self,
                ).log.scroll_offset + PAGE_SCROLL <= last_index(old(self).log.messages@.len()) {
                    old(self).log.scroll_offset + PAGE_SCROLL
                } else {
                    last_index(old(self).log.messages@.len()) as int
                }
                &&& key.code == KeyCode::PageDown ==> final(self).log.messages
                    == old(self).log.messages && final(self).log.scroll_offset == if old(
                    self,
                ).log.scroll_offset >= PAGE_SCROLL {
                    old(self).log.scroll_offset - PAGE_SCROLL
                } else {
                    0
                }
                &&& key.ctrl && key.code == KeyCode::Char(' ') ==> final(self).log.messages@.len()
                    == 0 && final(self).log.scroll_offset == 0
                &&& is_edit_key(key) ==> {
                    &&& (final(self).input.buffer@, final(self).input.cursor as int) == edited(
                        old(self).input.buffer@,
                        old(self).input.cursor as int,
                        key,
                    )
                    &&& final(self).input.history == old(self).input.history
                    &&& final(self).input.history_pos == old(self).input.history_pos
                    &&& final(self).input.suggestions_view() == if final(self).input.buffer@
                        == old(self).input.buffer@ {
                        old(self).input.suggestions_view()
                    } else {
                        suggestions_for(final(self).input.buffer@)
                    }
                    &&& final(self).log == old(self).log
                }
                &&& key.code != KeyCode::Enter && !is_edit_key(key) ==> final(self).input
                    == old(self).input
                &&& submitted is Some ==> key.code == KeyCode::Enter
            },
    {
        if !key.press {
            return None;
        }
        if key.ctrl {
            match key.code {
                KeyCode::Char('c') | KeyCode::Char('q') => {
                    self.should_quit = true;
                    return None;
                },
                KeyCode::Char('l') => {
                    self.theme = match self.theme {
                        ThemeKind::Dark => ThemeKind::Light,
                        ThemeKind::Light => ThemeKind::Dark,
                    };
                    return None;
                },
                _ => {},
            }
        }
        if self.show_help {
            match key.code {
                KeyCode::Char('?') | KeyCode::Esc | KeyCode::Char('q') => {
                    self.show_help = false;
                },
                _ => {},
            }
            return None;
        }
        match key.code {
            KeyCode::Enter => {
                let ghost before = self.input.buffer@;
                let text = self.input.submit();
                let chars = chars_of(text.as_str());
                let trimmed = trim_chars(&chars);
                proof {
                    crate::text::lemma_trim_empty_iff_blank(before);
                }
                if trimmed.len() > 0 {
                    return Some(text);
                }
                None
            },
            KeyCode::Char('?') => {
                self.show_help = true;
                None
            },
            KeyCode::Up => {
                self.log.scroll_up();
                None
            },
            KeyCode::Down => {
                self.log.scroll_down();
                None
            },
            KeyCode::PageUp => {
                self.scroll_up_by(PAGE_SCROLL);
                None
            },
            KeyCode::PageDown => {
                self.scroll_down_by(PAGE_SCROLL);
                None
            },
            KeyCode::Backspace => {
                self.input.backspace();
                None
            },
            KeyCode::Delete => {
                self.input.delete_char();
                None
            },
            KeyCode::Left => {
                if key.alt {
                    self.input.cursor_word_left();
                } else {
                    self.input.cursor_left();
                }
                None
            },
            KeyCode::Right => {
                if key.alt {
                    self.input.cursor_word_right();
                } else {
                    self.input.cursor_right();
                }
                None
            },
            KeyCode::Home => {
                self.input.cursor_home();
                None
            },
            KeyCode::End => {
                self.input.cursor_end();
                None
            },
            KeyCode::Char(c) => {
                if c == ' ' && key.ctrl {
                    self.log = MessageLog::new(LOG_CAPACITY);
                } else {
                    self.input.insert_char(c);
                }
                None
            },
            _ => None,
        }
    }

    /// React to a submitted line: echo it, run the local slash commands, and
    /// note when plain text finds no agent connected.
    pub fn handle_submit(&mut self, text: String) -> (outcome: SubmitOutcome)
        requires
            old(self).wf(),
        ensures
            final(self).wf(),
            final(self).input == old(self).input,
            final(self).status == old(self).status,
            final(self).theme == old(self).theme,
            final(self).objective == old(self).objective,
            final(self).width == old(self).width,
            final(self).should_quit == old(self).should_quit,
            outcome == SubmitOutcome::Quit <==> (trim(text@) == "/quit"@ || trim(text@)
                == "/exit"@),
            trim(text@) == "/clear"@ ==> final(self).log.messages@.len() == 0,
            (trim(text@) == "/quit"@ || trim(text@) == "/exit"@ || trim(text@) == "/help"@ || trim(
                text@,
            ) == "/?"@) ==> messages_view(final(self).log.messages@) == pushed(
                messages_view(old(self).log.messages@),
                LOG_CAPACITY as nat,
                MessageView::User { text: text@ },
            ),
            final(self).show_help == (old(self).show_help || (outcome == SubmitOutcome::Continue
                && trim(text@) != "/clear"@ && (trim(text@) == "/help"@ || trim(text@)
                == "/?"@))),
            trim(text@) != "/quit"@ && trim(text@) != "/exit"@ && trim(text@) != "/clear"@
                && trim(text@) != "/help"@ && trim(text@) != "/?"@ ==> messages_view(
                final(self).log.messages@,
            ) == if text@.len() > 0 && text@[0] == '/' {
                pushed(
                    messages_view(old(self).log.messages@),
                    LOG_CAPACITY as nat,
                    MessageView::User { text: text@ },
                )
            } else {
                pushed(
                    pushed(
                        messages_view(old(self).log.messages@),
                        LOG_CAPACITY as nat,
                        MessageView::User { text: text@ },
                    ),
                    LOG_CAPACITY as nat,
                    MessageView::System { text: no_backend_note(), kind: SystemKind::Warning },
                )
            },
    {
        proof {
            reveal_strlit("/quit");
            reveal_strlit("/exit");
            reveal_strlit("/clear");
            reveal_strlit("/help");
            reveal_strlit("/?");
            assert("/quit"@.len() == 5 && "/exit"@.len() == 5 && "/clear"@.len() == 6);
            assert("/help"@.len() == 5 && "/?"@.len() == 2);
            assert("/quit"@[1] != "/exit"@[1] && "/quit"@[1] != "/help"@[1]);
            assert("/exit"@[1] != "/help"@[1]);
        }
        let chars = chars_of(text.as_str());
        let t = trim_chars(&chars);
        let ghost m0 = self.log.messages@;
        let starts_slash = chars.len() > 0 && chars[0] == '/';
        let echo = Message::User { text };
        self.log.push(echo);
        proof {
            lemma_pushed_view(m0, LOG_CAPACITY as nat, echo);
        }
        if same_chars(&t, &chars_of("/quit")) || same_chars(&t, &chars_of("/exit")) {
            return SubmitOutcome::Quit;
        }
        if same_chars(&t, &chars_of("/clear")) {
            self.log = MessageLog::new(LOG_CAPACITY);
            return SubmitOutcome::Continue;
        }
        if same_chars(&t, &chars_of("/help")) || same_chars(&t, &chars_of("/?")) {
            self.show_help = true;
            return SubmitOutcome::Continue;
        }
        if !starts_slash {
            let ghost m1 = self.log.messages@;
            let note = Message::System {
                text: String::from_str(
                    "No agent backend connected. Run via `chimera run --interactive` to connect the agent loop.",
                ),
                kind: SystemKind::Warning,
            };
            self.log.push(note);
            proof {
                lemma_pushed_view(m1, LOG_CAPACITY as nat, note);
            }
        }
        SubmitOutcome::Continue
    }

    /// The agent finished: stop the running indicator and say so.
    pub fn agent_done(&mut self)
        requires
            old(self).wf(),
        ensures
            final(self).wf(),
            !final(self).status.running,
            messages_view(final(self).log.messages@) == pushed(
                messages_view(old(self).log.messages@),
                LOG_CAPACITY as nat,
                MessageView::System { text: "Agent run complete."@, kind: SystemKind::Success },
            ),
            final(self).input == old(self).input,
            final(self).theme == old(self).theme,
            final(self).show_help == old(self).show_help,
            final(self).should_quit == old(self).should_quit,
    {
        self.status.running = false;
        let ghost m0 = self.log.messages@;
        let m = Message::System {
            text: String::from_str("Agent run complete."),
            kind: SystemKind::Success,
        };
        self.log.push(m);
        proof {
            lemma_pushed_view(m0, LOG_CAPACITY as nat, m);
        }
    }
}


} // verus!
