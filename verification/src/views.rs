//! What the dashboard's views show: for each panel, its lines as runs of
//! text with a colour and a weight. Laying the panels out on a terminal
//! and drawing them is the caller's part.

use vstd::prelude::*;

use crate::dashboard::{
    grid_row, shell_grid_rows, App, ApprovalPrompt, CreatureRow, FeedLine, ShellGridRow,
    TaskDisplayStatus, TaskRow,
};
use crate::report::{clock_hms, time_of_day};
use crate::text::{decimal, decimal_of, pad_right, pad_to, str_eq, string_of};

verus! {

/// A named terminal colour; `Plain` keeps the terminal's own.
#[derive(Debug, Clone, Copy, PartialEq, Eq, Structural)]
pub enum Tone {
    Plain,
    Cyan,
    Green,
    Yellow,
    Red,
    Blue,
    Magenta,
    DarkGray,
    White,
}

/// A run of text drawn in one colour, bold or not.
#[derive(Debug, Clone)]
pub struct Span {
    pub text: String,
    pub tone: Tone,
    pub bold: bool,
}

/// What a span shows: its text, colour and weight.
pub type SpanView = (Seq<char>, Tone, bool);

impl Span {
    pub open spec fn view(&self) -> SpanView {
        (self.text@, self.tone, self.bold)
    }
}

/// A line of a panel: its spans, left to right.
#[derive(Debug, Clone)]
pub struct Line {
    pub spans: Vec<Span>,
}

/// What a sequence of spans shows.
pub open spec fn spans_view(v: Seq<Span>) -> Seq<SpanView> {
    v.map_values(|s: Span| s.view())
}

/// What a line shows.
pub open spec fn line_view(l: Line) -> Seq<SpanView> {
    spans_view(l.spans@)
}

/// What a sequence of lines shows.
pub open spec fn lines_view(v: Seq<Line>) -> Seq<Seq<SpanView>> {
    v.map_values(|l: Line| line_view(l))
}

/// Plain text in the terminal's colour.
pub open spec fn plain(s: Seq<char>) -> SpanView {
    (s, Tone::Plain, false)
}

/// Text in a colour.
pub open spec fn toned(s: Seq<char>, t: Tone) -> SpanView {
    (s, t, false)
}

fn span(text: &str, tone: Tone, bold: bool) -> (s: Span)
    ensures
        s.view() == (text@, tone, bold),
{
    Span { text: String::from_str(text), tone, bold }
}

fn owned(text: String, tone: Tone, bold: bool) -> (s: Span)
    ensures
        s.view() == (text@, tone, bold),
{
    Span { text, tone, bold }
}

/// The colour of a creature's state: green while running, yellow while
/// waiting, dark grey when idle, white otherwise.
pub open spec fn state_tone(state: Seq<char>) -> Tone {
    if state == "running"@ {
        Tone::Green
    } else if state == "waiting"@ {
        Tone::Yellow
    } else if state == "idle"@ {
        Tone::DarkGray
    } else {
        Tone::White
    }
}

/// The colour of a creature's state.
pub fn state_tone_of(state: &str) -> (t: Tone)
    ensures
        t == state_tone(state@),
{
    if str_eq(state, "running") {
        Tone::Green
    } else if str_eq(state, "waiting") {
        Tone::Yellow
    } else if str_eq(state, "idle") {
        Tone::DarkGray
    } else {
        Tone::White
    }
}

/// The dashboard's header line: the brand, the session label, the mode
/// and the autonomy level.
pub open spec fn header_view(app: App) -> Seq<SpanView> {
    seq![
        ("chimera"@, Tone::Cyan, true),
        plain(" :: "@),
        plain(app.session_label@),
        plain("    Mode: "@),
        toned(app.mode@, Tone::Yellow),
        plain("    Autonomy: "@),
        toned(app.autonomy@, Tone::Green),
    ]
}

/// The dashboard's header line.
pub fn header_line(app: &App) -> (l: Line)
    ensures
        line_view(l) == header_view(*app),
{
    let mut v: Vec<Span> = Vec::new();
    v.push(span("chimera", Tone::Cyan, true));
    v.push(span(" :: ", Tone::Plain, false));
    v.push(owned(app.session_label.clone(), Tone::Plain, false));
    v.push(span("    Mode: ", Tone::Plain, false));
    v.push(owned(app.mode.clone(), Tone::Yellow, false));
    v.push(span("    Autonomy: ", Tone::Plain, false));
    v.push(owned(app.autonomy.clone(), Tone::Green, false));
    assert(spans_view(v@) =~= header_view(*app));
    Line { spans: v }
}

/// The tokens cell of a creature: thousands of tokens, rounded down, and
/// `k`.
pub open spec fn tokens_text(tokens: u64) -> Seq<char> {
    decimal((tokens / 1000) as nat) + "k"@
}

/// The cells of a creature's row in the creatures table. The confidence
/// cell is the creature's score shown with two decimals.
#[derive(Debug, Clone)]
pub struct CreatureCells {
    pub id: Span,
    pub role: Span,
    pub state: Span,
    pub world: Span,
    /// The confidence score, as the bits of an IEEE-754 double.
    pub confidence_bits: u64,
    pub tokens: Span,
    pub last_action: Span,
}

/// Whether `cells` are the cells of creature `c`: its fields as plain text
/// but the state, coloured by `state_tone`, and the tokens as
/// `tokens_text`.
pub open spec fn cells_of(cells: CreatureCells, c: CreatureRow) -> bool {
    &&& cells.id.view() == plain(c.id@)
    &&& cells.role.view() == plain(c.role@)
    &&& cells.state.view() == toned(c.state@, state_tone(c.state@))
    &&& cells.world.view() == plain(c.world@)
    &&& cells.confidence_bits == c.confidence_bits
    &&& cells.tokens.view() == plain(tokens_text(c.tokens_used))
    &&& cells.last_action.view() == plain(c.last_action@)
}

/// The cells of a creature's row.
pub fn creature_cells(c: &CreatureRow) -> (cells: CreatureCells)
    ensures
        cells_of(cells, *c),
{
    let tokens = string_of(&decimal_of(c.tokens_used / 1000)).concat("k");
    CreatureCells {
        id: owned(c.id.clone(), Tone::Plain, false),
        role: owned(c.role.clone(), Tone::Plain, false),
        state: owned(c.state.clone(), state_tone_of(c.state.as_str()), false),
        world: owned(c.world.clone(), Tone::Plain, false),
        confidence_bits: c.confidence_bits,
        tokens: owned(tokens, Tone::Plain, false),
        last_action: owned(c.last_action.clone(), Tone::Plain, false),
    }
}

/// The rows of the creatures table, one per creature, in order.
pub fn creature_table(app: &App) -> (rows: Vec<CreatureCells>)
    ensures
        rows@.len() == app.creatures@.len(),
        forall|i: int| 0 <= i < rows@.len() ==> cells_of(#[trigger] rows@[i], app.creatures@[i]),
{
    let mut rows: Vec<CreatureCells> = Vec::new();
    let mut i: usize = 0;
    while i < app.creatures.len()
        invariant
            i <= app.creatures@.len(),
            rows@.len() == i,
            forall|k: int| 0 <= k < i ==> cells_of(#[trigger] rows@[k], app.creatures@[k]),
        decreases app.creatures.len() - i,
    {
        rows.push(creature_cells(&app.creatures[i]));
        i = i + 1;
    }
    rows
}

/// The check box of a task's status.
pub open spec fn task_icon(s: TaskDisplayStatus) -> Seq<char> {
    match s {
        TaskDisplayStatus::Complete => "[x]"@,
        TaskDisplayStatus::InProgress => "[~]"@,
        TaskDisplayStatus::Pending => "[ ]"@,
        TaskDisplayStatus::Failed => "[!]"@,
    }
}

/// The colour of a task's status.
pub open spec fn task_tone(s: TaskDisplayStatus) -> Tone {
    match s {
        TaskDisplayStatus::Complete => Tone::Green,
        TaskDisplayStatus::InProgress => Tone::Yellow,
        TaskDisplayStatus::Pending => Tone::DarkGray,
        TaskDisplayStatus::Failed => Tone::Red,
    }
}

/// A task's line of the task graph: ` <box> <description>`, in its
/// status's colour.
pub open spec fn task_view(t: TaskRow) -> Seq<SpanView> {
    seq![toned(" "@ + task_icon(t.status) + " "@ + t.description@, task_tone(t.status))]
}

fn icon_text(s: TaskDisplayStatus) -> (r: &'static str)
    ensures
        r@ == task_icon(s),
{
    match s {
        TaskDisplayStatus::Complete => "[x]",
        TaskDisplayStatus::InProgress => "[~]",
        TaskDisplayStatus::Pending => "[ ]",
        TaskDisplayStatus::Failed => "[!]",
    }
}

fn tone_of_task(s: TaskDisplayStatus) -> (t: Tone)
    ensures
        t == task_tone(s),
{
    match s {
        TaskDisplayStatus::Complete => Tone::Green,
        TaskDisplayStatus::InProgress => Tone::Yellow,
        TaskDisplayStatus::Pending => Tone::DarkGray,
        TaskDisplayStatus::Failed => Tone::Red,
    }
}

/// The task graph: one line per task, in order.
pub fn task_lines(app: &App) -> (lines: Vec<Line>)
    ensures
        lines_view(lines@) == app.tasks@.map_values(|t: TaskRow| task_view(t)),
{
    let mut lines: Vec<Line> = Vec::new();
    let mut i: usize = 0;
    while i < app.tasks.len()
        invariant
            i <= app.tasks@.len(),
            lines_view(lines@) == app.tasks@.take(i as int).map_values(|t: TaskRow| task_view(t)),
        decreases app.tasks.len() - i,
    {
        let t = &app.tasks[i];
        let text = String::from_str(" ").concat(icon_text(t.status)).concat(" ").concat(
            t.description.as_str(),
        );
        let mut spans: Vec<Span> = Vec::new();
        spans.push(owned(text, tone_of_task(t.status), false));
        let l = Line { spans };
        assert(line_view(l) =~= task_view(app.tasks@[i as int]));
        let ghost before = lines@;
        lines.push(l);
        proof {
            assert(lines@ =~= before.push(l));
            assert(lines_view(lines@) =~= lines_view(before).push(line_view(l)));
            assert(app.tasks@.take(i + 1) =~= app.tasks@.take(i as int).push(app.tasks@[i as int]));
        }
        i = i + 1;
    }
    assert(app.tasks@.take(i as int) =~= app.tasks@);
    lines
}

/// Number of feed lines the dashboard shows.
pub const FEED_SHOWN: usize = 6;

/// Where the shown part of a feed of `len` lines starts: only the newest
/// `FEED_SHOWN` are shown.
pub open spec fn feed_start(len: nat) -> nat {
    if len > FEED_SHOWN {
        (len - FEED_SHOWN) as nat
    } else {
        0
    }
}

/// A feed line as shown: ` HH:MM:SS ` in dark grey, the creature in cyan,
/// a space, the message.
pub open spec fn feed_view(l: FeedLine) -> Seq<SpanView> {
    seq![
        toned(" "@ + clock_hms(l.timestamp.secs as int, l.timestamp.nanos as nat) + " "@, Tone::DarkGray),
        toned(l.creature@, Tone::Cyan),
        plain(" "@),
        plain(l.message@),
    ]
}

/// The live feed panel: the newest lines, oldest first.
pub fn feed_lines(app: &App) -> (lines: Vec<Line>)
    ensures
        lines_view(lines@) == app.feed@.skip(feed_start(app.feed@.len()) as int).map_values(
            |l: FeedLine| feed_view(l),
        ),
{
    let n = app.feed.len();
    let start: usize = if n > FEED_SHOWN {
        n - FEED_SHOWN
    } else {
        0
    };
    let ghost shown = app.feed@.skip(start as int);
    let mut lines: Vec<Line> = Vec::new();
    let mut i: usize = start;
    while i < n
        invariant
            n == app.feed@.len(),
            start <= i <= n,
            shown == app.feed@.skip(start as int),
            lines_view(lines@) == shown.take(i - start).map_values(|l: FeedLine| feed_view(l)),
        decreases n - i,
    {
        let f = &app.feed[i];
        let time = String::from_str(" ").concat(time_of_day(f.timestamp).as_str()).concat(" ");
        let mut spans: Vec<Span> = Vec::new();
        spans.push(owned(time, Tone::DarkGray, false));
        spans.push(owned(f.creature.clone(), Tone::Cyan, false));
        spans.push(span(" ", Tone::Plain, false));
        spans.push(owned(f.message.clone(), Tone::Plain, false));
        let l = Line { spans };
        assert(line_view(l) =~= feed_view(app.feed@[i as int]));
        let ghost before = lines@;
        lines.push(l);
        proof {
            assert(shown[i - start] == app.feed@[i as int]);
            assert(lines_view(lines@) =~= lines_view(before).push(line_view(l)));
            assert(shown.take(i + 1 - start) =~= shown.take(i - start).push(shown[i - start]));
        }
        i = i + 1;
    }
    assert(shown.take(n - start) =~= shown);
    lines
}

/// A key hint line: each key in its colour followed by what it does.
pub open spec fn hints_view(keys: Seq<(Seq<char>, Tone, bool, Seq<char>)>) -> Seq<SpanView>
    decreases keys.len(),
{
    if keys.len() == 0 {
        Seq::empty()
    } else {
        hints_view(keys.drop_last()) + seq![
            (keys.last().0, keys.last().1, keys.last().2),
            plain(keys.last().3),
        ]
    }
}

fn push_hint(v: &mut Vec<Span>, key: &str, tone: Tone, bold: bool, what: &str)
    ensures
        spans_view(final(v)@) == spans_view(old(v)@) + seq![(key@, tone, bold), plain(what@)],
{
    let ghost before = v@;
    v.push(span(key, tone, bold));
    v.push(span(what, Tone::Plain, false));
    assert(spans_view(v@) =~= spans_view(before) + seq![(key@, tone, bold), plain(what@)]);
}

/// The dashboard's keys.
pub open spec fn dashboard_keys_view() -> Seq<SpanView> {
    hints_view(
        seq![
            ("[a]"@, Tone::Green, false, " approve  "@),
            ("[d]"@, Tone::Red, false, " deny  "@),
            ("[f]"@, Tone::Yellow, false, " fork  "@),
            ("[c]"@, Tone::Blue, false, " checkpoint  "@),
            ("[r]"@, Tone::Magenta, false, " replay  "@),
            ("[l]"@, Tone::Cyan, false, " leash  "@),
            ("[q]"@, Tone::DarkGray, false, " quit"@),
        ],
    )
}

/// The dashboard's key hint line.
pub fn dashboard_keys() -> (l: Line)
    ensures
        line_view(l) == dashboard_keys_view(),
{
    let mut v: Vec<Span> = Vec::new();
    push_hint(&mut v, "[a]", Tone::Green, false, " approve  ");
    push_hint(&mut v, "[d]", Tone::Red, false, " deny  ");
    push_hint(&mut v, "[f]", Tone::Yellow, false, " fork  ");
    push_hint(&mut v, "[c]", Tone::Blue, false, " checkpoint  ");
    push_hint(&mut v, "[r]", Tone::Magenta, false, " replay  ");
    push_hint(&mut v, "[l]", Tone::Cyan, false, " leash  ");
    push_hint(&mut v, "[q]", Tone::DarkGray, false, " quit");
    proof {
        reveal_with_fuel(hints_view, 8);
        assert(spans_view(v@) =~= dashboard_keys_view());
    }
    Line { spans: v }
}

/// A label in bold followed by a value.
pub open spec fn labelled(label: Seq<char>, value: SpanView) -> Seq<SpanView> {
    seq![(label, Tone::Plain, true), value]
}

fn labelled_line(label: &str, value: Span) -> (l: Line)
    ensures
        line_view(l) == labelled(label@, value.view()),
{
    let mut v: Vec<Span> = Vec::new();
    v.push(span(label, Tone::Plain, true));
    v.push(value);
    assert(spans_view(v@) =~= labelled(label@, value.view()));
    Line { spans: v }
}

/// The inspector's information lines of a creature; its confidence line
/// follows them.
pub open spec fn info_view(c: CreatureRow) -> Seq<Seq<SpanView>> {
    seq![
        labelled("ID:    "@, plain(c.id@)),
        labelled("Role:  "@, plain(c.role@)),
        labelled("World: "@, plain(c.world@)),
        labelled("State: "@, toned(c.state@, Tone::Yellow)),
    ]
}

/// The inspector's keys.
pub open spec fn inspector_keys_view() -> Seq<SpanView> {
    hints_view(
        seq![
            ("[enter]"@, Tone::Green, false, " approve step  "@),
            ("[b]"@, Tone::Blue, false, " open shell  "@),
            ("[t]"@, Tone::Magenta, false, " traces  "@),
            ("[Tab]"@, Tone::DarkGray, false, " back"@),
        ],
    )
}

/// What the creature inspector shows of the selected creature.
#[derive(Debug, Clone)]
pub struct InspectorView {
    /// ` Creature: <id> `.
    pub title: String,
    pub info: Vec<Line>,
    /// The bold label of the confidence line, whose value is the score
    /// with two decimals.
    pub confidence_label: Span,
    /// The confidence score, as the bits of an IEEE-754 double.
    pub confidence_bits: u64,
    pub keys: Line,
}

/// The creature inspector: nothing when no creature is selected (the
/// selection is past the last creature), else the selected creature's
/// title, information lines, confidence and keys.
pub fn inspector_view(app: &App) -> (v: Option<InspectorView>)
    ensures
        v is None <==> app.selected_creature >= app.creatures@.len(),
        v matches Some(iv) ==> {
            let c = app.creatures@[app.selected_creature as int];
            &&& iv.title@ == " Creature: "@ + c.id@ + " "@
            &&& lines_view(iv.info@) == info_view(c)
            &&& iv.confidence_label.view() == ("Conf:  "@, Tone::Plain, true)
            &&& iv.confidence_bits == c.confidence_bits
            &&& line_view(iv.keys) == inspector_keys_view()
        },
{
    if app.selected_creature >= app.creatures.len() {
        return None;
    }
    let c = &app.creatures[app.selected_creature];
    let mut info: Vec<Line> = Vec::new();
    info.push(labelled_line("ID:    ", owned(c.id.clone(), Tone::Plain, false)));
    info.push(labelled_line("Role:  ", owned(c.role.clone(), Tone::Plain, false)));
    info.push(labelled_line("World: ", owned(c.world.clone(), Tone::Plain, false)));
    info.push(labelled_line("State: ", owned(c.state.clone(), Tone::Yellow, false)));
    assert(lines_view(info@) =~= info_view(*c));
    let mut keys: Vec<Span> = Vec::new();
    push_hint(&mut keys, "[enter]", Tone::Green, false, " approve step  ");
    push_hint(&mut keys, "[b]", Tone::Blue, false, " open shell  ");
    push_hint(&mut keys, "[t]", Tone::Magenta, false, " traces  ");
    push_hint(&mut keys, "[Tab]", Tone::DarkGray, false, " back");
    proof {
        reveal_with_fuel(hints_view, 5);
        assert(spans_view(keys@) =~= inspector_keys_view());
    }
    Some(
        InspectorView {
            title: String::from_str(" Creature: ").concat(c.id.as_str()).concat(" "),
            info,
            confidence_label: span("Conf:  ", Tone::Plain, true),
            confidence_bits: c.confidence_bits,
            keys: Line { spans: keys },
        },
    )
}

/// A list item: `  - <text>`.
pub open spec fn bullet_view(s: Seq<char>) -> Seq<SpanView> {
    seq![plain("  - "@ + s)]
}

fn bullets(items: &Vec<String>) -> (lines: Vec<Line>)
    ensures
        lines_view(lines@) == items@.map_values(|s: String| bullet_view(s@)),
{
    let mut lines: Vec<Line> = Vec::new();
    let mut i: usize = 0;
    while i < items.len()
        invariant
            i <= items@.len(),
            lines_view(lines@) == items@.take(i as int).map_values(|s: String| bullet_view(s@)),
        decreases items.len() - i,
    {
        let mut spans: Vec<Span> = Vec::new();
        spans.push(owned(String::from_str("  - ").concat(items[i].as_str()), Tone::Plain, false));
        let l = Line { spans };
        assert(line_view(l) =~= bullet_view(items@[i as int]@));
        let ghost before = lines@;
        lines.push(l);
        proof {
            assert(lines_view(lines@) =~= lines_view(before).push(line_view(l)));
            assert(items@.take(i + 1) =~= items@.take(i as int).push(items@[i as int]));
        }
        i = i + 1;
    }
    assert(items@.take(i as int) =~= items@);
    lines
}

/// The header lines of an approval request.
pub open spec fn request_view(p: ApprovalPrompt) -> Seq<Seq<SpanView>> {
    seq![
        labelled("Request: "@, plain(p.request_id@)),
        labelled("Actor:   "@, plain(p.actor@)),
        labelled("Class:   "@, toned(p.class@, Tone::Yellow)),
        labelled("Action:  "@, plain(p.action@)),
        labelled("Reason:  "@, plain(p.reason@)),
    ]
}

/// The approval view's keys.
pub open spec fn approval_keys_view() -> Seq<SpanView> {
    hints_view(
        seq![
            ("[y]"@, Tone::Green, false, " approve once  "@),
            ("[Y]"@, Tone::Green, true, " approve for task  "@),
            ("[n]"@, Tone::Red, false, " deny  "@),
            ("[o]"@, Tone::Yellow, false, " reduce scope"@),
        ],
    )
}

/// What the approval view shows of a pending request.
#[derive(Debug, Clone)]
pub struct ApprovalView {
    pub request: Vec<Line>,
    pub resources: Vec<Line>,
    pub verification: Vec<Line>,
    /// `  <rollback information>`.
    pub rollback: String,
    pub keys: Line,
}

/// The approval view: nothing when no request is pending, else the
/// request's header lines, its touched resources and verification steps
/// as list items, its rollback information, and the keys.
pub fn approval_view(app: &App) -> (v: Option<ApprovalView>)
    ensures
        v is None <==> app.approval is None,
        v matches Some(av) ==> {
            let p = app.approval->0;
            &&& lines_view(av.request@) == request_view(p)
            &&& lines_view(av.resources@) == p.touched_resources@.map_values(
                |s: String| bullet_view(s@),
            )
            &&& lines_view(av.verification@) == p.verification_steps@.map_values(
                |s: String| bullet_view(s@),
            )
            &&& av.rollback@ == "  "@ + p.rollback_info@
            &&& line_view(av.keys) == approval_keys_view()
        },
{
    match &app.approval {
        None => None,
        Some(p) => {
            let mut request: Vec<Line> = Vec::new();
            request.push(labelled_line("Request: ", owned(p.request_id.clone(), Tone::Plain, false)));
            request.push(labelled_line("Actor:   ", owned(p.actor.clone(), Tone::Plain, false)));
            request.push(labelled_line("Class:   ", owned(p.class.clone(), Tone::Yellow, false)));
            request.push(labelled_line("Action:  ", owned(p.action.clone(), Tone::Plain, false)));
            request.push(labelled_line("Reason:  ", owned(p.reason.clone(), Tone::Plain, false)));
            assert(lines_view(request@) =~= request_view(*p));
            let mut keys: Vec<Span> = Vec::new();
            push_hint(&mut keys, "[y]", Tone::Green, false, " approve once  ");
            push_hint(&mut keys, "[Y]", Tone::Green, true, " approve for task  ");
            push_hint(&mut keys, "[n]", Tone::Red, false, " deny  ");
            push_hint(&mut keys, "[o]", Tone::Yellow, false, " reduce scope");
            proof {
                reveal_with_fuel(hints_view, 5);
                assert(spans_view(keys@) =~= approval_keys_view());
            }
            Some(
                ApprovalView {
                    request,
                    resources: bullets(&p.touched_resources),
                    verification: bullets(&p.verification_steps),
                    rollback: String::from_str("  ").concat(p.rollback_info.as_str()),
                    keys: Line { spans: keys },
                },
            )
        },
    }
}

/// A shell grid line: the label padded to 20 in cyan after a space, the
/// command padded to 40, and the status in bold, coloured as a state.
pub open spec fn grid_line_view(r: (Seq<char>, Seq<char>, Seq<char>)) -> Seq<SpanView> {
    seq![
        toned(" "@ + pad_right(r.0, 20), Tone::Cyan),
        plain(pad_right(r.1, 40)),
        (r.2, state_tone(r.2), true),
    ]
}

/// The shell grid: one line per creature, in order.
pub fn shell_grid_lines(app: &App) -> (lines: Vec<Line>)
    ensures
        lines_view(lines@) == app.creatures@.map_values(|c: CreatureRow| grid_line_view(grid_row(c))),
{
    let rows = shell_grid_rows(app);
    let ghost rv = rows@.map_values(|r: ShellGridRow| (r.label@, r.command@, r.status@));
    let mut lines: Vec<Line> = Vec::new();
    let mut i: usize = 0;
    while i < rows.len()
        invariant
            i <= rows@.len(),
            rv == rows@.map_values(|r: ShellGridRow| (r.label@, r.command@, r.status@)),
            lines_view(lines@) == rv.take(i as int).map_values(
                |r: (Seq<char>, Seq<char>, Seq<char>)| grid_line_view(r),
            ),
        decreases rows.len() - i,
    {
        let r = &rows[i];
        let mut spans: Vec<Span> = Vec::new();
        spans.push(owned(String::from_str(" ").concat(pad_to(r.label.as_str(), 20).as_str()), Tone::Cyan, false));
        spans.push(owned(pad_to(r.command.as_str(), 40), Tone::Plain, false));
        spans.push(owned(r.status.clone(), state_tone_of(r.status.as_str()), true));
        let l = Line { spans };
        assert(line_view(l) =~= grid_line_view(rv[i as int]));
        let ghost before = lines@;
        lines.push(l);
        proof {
            assert(lines_view(lines@) =~= lines_view(before).push(line_view(l)));
            assert(rv.take(i + 1) =~= rv.take(i as int).push(rv[i as int]));
        }
        i = i + 1;
    }
    proof {
        assert(rv.take(i as int) =~= rv);
        assert(rv.map_values(|r: (Seq<char>, Seq<char>, Seq<char>)| grid_line_view(r)) =~= app.creatures@.map_values(
            |c: CreatureRow| grid_line_view(grid_row(c)),
        )) by {
            assert(rv =~= app.creatures@.map_values(|c: CreatureRow| grid_row(c)));
        }
    }
    lines
}

} // verus!
