//! The dashboard's state: creatures, tasks, the live feed, and the keys
//! that switch views and select creatures.

use vstd::prelude::*;

use crate::outside::{new_id, now, Timestamp};
use crate::runner::{KeyCode, KeyEvent};

verus! {

/// Number of lines the live feed keeps.
pub const FEED_CAPACITY: usize = 200;

/// Which view the dashboard shows.
#[derive(Debug, Clone, Copy, PartialEq, Eq, Structural)]
pub enum ActiveView {
    Dashboard,
    CreatureInspector,
    ShellGrid,
    ApprovalPrompt,
}

/// A creature row of the dashboard.
#[derive(Debug, Clone)]
pub struct CreatureRow {
    pub id: String,
    pub role: String,
    pub state: String,
    pub world: String,
    /// The confidence score, as the bits of an IEEE-754 double.
    pub confidence_bits: u64,
    pub tokens_used: u64,
    pub last_action: String,
}

/// Display status of a task.
#[derive(Debug, Clone, Copy, PartialEq, Eq, Structural)]
pub enum TaskDisplayStatus {
    Pending,
    InProgress,
    Complete,
    Failed,
}

/// A task row of the task graph.
#[derive(Debug, Clone)]
pub struct TaskRow {
    pub description: String,
    pub status: TaskDisplayStatus,
}

/// A line of the live feed.
#[derive(Debug, Clone)]
pub struct FeedLine {
    pub timestamp: Timestamp,
    pub creature: String,
    pub message: String,
}

/// An approval request shown to the operator.
#[derive(Debug, Clone)]
pub struct ApprovalPrompt {
    pub request_id: String,
    pub actor: String,
    pub class: String,
    pub action: String,
    pub reason: String,
    pub touched_resources: Vec<String>,
    pub verification_steps: Vec<String>,
    pub rollback_info: String,
}

/// The view that follows `v` when cycling with Tab.
pub open spec fn next_view(v: ActiveView) -> ActiveView {
    match v {
        ActiveView::Dashboard => ActiveView::CreatureInspector,
        ActiveView::CreatureInspector => ActiveView::ShellGrid,
        ActiveView::ShellGrid => ActiveView::Dashboard,
        ActiveView::ApprovalPrompt => ActiveView::Dashboard,
    }
}

/// Whether the dashboard consumes a key.
pub open spec fn consumes(code: KeyCode) -> bool {
    match code {
        KeyCode::Char(c) => c == 'q' || c == 'a' || c == 'd' || c == 'f' || c == 'c' || c == 'r'
            || c == 'l',
        KeyCode::Tab | KeyCode::Up | KeyCode::Down => true,
        _ => false,
    }
}

/// The selected creature after a key: Up moves to the previous one, Down
/// to the next one, each stopping at the ends; other keys keep it.
pub open spec fn selection_after(sel: int, n: int, code: KeyCode) -> int {
    if code == KeyCode::Up && sel > 0 {
        sel - 1
    } else if code == KeyCode::Down && sel + 1 < n {
        sel + 1
    } else {
        sel
    }
}

/// Keys keep the selection among the creatures: a selection below
/// `max(1, n)` stays below it and moves by at most one; and three Tabs
/// from any of the cycling views come back to it.
pub proof fn law_selection_stays_in_range(sel: int, n: int, code: KeyCode)
    requires
        0 <= sel,
        sel < (if n > 1 { n } else { 1 }),
    ensures
        0 <= selection_after(sel, n, code) < (if n > 1 { n } else { 1 }),
        -1 <= selection_after(sel, n, code) - sel <= 1,
        next_view(next_view(next_view(ActiveView::Dashboard))) == ActiveView::Dashboard,
        next_view(next_view(next_view(ActiveView::CreatureInspector))) == ActiveView::CreatureInspector,
        next_view(next_view(next_view(ActiveView::ShellGrid))) == ActiveView::ShellGrid,
{
}

/// Top-level dashboard state.
pub struct App {
    pub view: ActiveView,
    pub session_label: String,
    /// The session's 128-bit identifier.
    pub session_id: u128,
    pub mode: String,
    pub autonomy: String,
    pub repo: String,
    pub worlds: String,
    pub objective: String,
    pub creatures: Vec<CreatureRow>,
    pub tasks: Vec<TaskRow>,
    /// Live feed, most recent last.
    pub feed: Vec<FeedLine>,
    pub approval: Option<ApprovalPrompt>,
    /// Selected creature index (for the inspector).
    pub selected_creature: usize,
    pub should_quit: bool,
}

impl App {
    /// The feed as (creature, message) pairs.
    pub open spec fn feed_view(&self) -> Seq<(Seq<char>, Seq<char>)> {
        self.feed@.map_values(|l: FeedLine| (l.creature@, l.message@))
    }

    /// A fresh dashboard showing the main view.
    pub fn new(session_label: String, objective: String) -> (app: Self)
        ensures
            app.view == ActiveView::Dashboard,
            app.session_label == session_label,
            app.objective == objective,
            app.mode@ == "RUN"@,
            app.autonomy@ == "MEDIUM"@,
            app.repo@.len() == 0,
            app.worlds@.len() == 0,
            app.creatures@.len() == 0,
            app.tasks@.len() == 0,
            app.feed@.len() == 0,
            app.approval is None,
            app.selected_creature == 0,
            !app.should_quit,
    {
        App {
            view: ActiveView::Dashboard,
            session_label,
            session_id: new_id(),
            mode: String::from_str("RUN"),
            autonomy: String::from_str("MEDIUM"),
            repo: String::new(),
            worlds: String::new(),
            objective,
            creatures: Vec::new(),
            tasks: Vec::new(),
            feed: Vec::new(),
            approval: None,
            selected_creature: 0,
            should_quit: false,
        }
    }

    /// Push a line to the live feed, keeping only the newest lines.
    pub fn push_feed(&mut self, creature: &str, message: &str)
        requires
            old(self).feed@.len() <= FEED_CAPACITY,
        ensures
            final(self).feed@.len() <= FEED_CAPACITY,
            final(self).feed_view() == {
                let all = old(self).feed_view().push((creature@, message@));
                if all.len() > FEED_CAPACITY {
                    all.skip(all.len() - FEED_CAPACITY)
                } else {
                    all
                }
            },
            final(self).creatures == old(self).creatures,
            final(self).view == old(self).view,
            final(self).selected_creature == old(self).selected_creature,
            final(self).should_quit == old(self).should_quit,
    {
        let ghost before = self.feed_view();
        self.feed.push(
            FeedLine {
                timestamp: now(),
                creature: String::from_str(creature),
                message: String::from_str(message),
            },
        );
        assert(self.feed_view() =~= before.push((creature@, message@)));
        if self.feed.len() > FEED_CAPACITY {
            let ghost all = self.feed_view();
            let kept = self.feed.split_off(self.feed.len() - FEED_CAPACITY);
            self.feed = kept;
            assert(self.feed_view() =~= all.skip(all.len() - FEED_CAPACITY));
        }
    }

    /// React to a key; returns whether the dashboard consumed it.
    pub fn handle_key(&mut self, key: KeyEvent) -> (consumed: bool)
        ensures
            consumed == consumes(key.code),
            final(self).should_quit == (old(self).should_quit || key.code == KeyCode::Char('q')),
            final(self).view == if key.code == KeyCode::Tab {
                next_view(old(self).view)
            } else {
                old(self).view
            },
            final(self).selected_creature == selection_after(
                old(self).selected_creature as int,
                old(self).creatures@.len() as int,
                key.code,
            ),
            final(self).creatures == old(self).creatures,
            final(self).feed == old(self).feed,
            final(self).tasks == old(self).tasks,
            final(self).approval == old(self).approval,
    {
        match key.code {
            KeyCode::Char('q') => {
                self.should_quit = true;
                true
            },
            KeyCode::Char('a') | KeyCode::Char('d') | KeyCode::Char('f') | KeyCode::Char('c')
            | KeyCode::Char('r') | KeyCode::Char('l') => true,
            KeyCode::Tab => {
                self.view = match self.view {
                    ActiveView::Dashboard => ActiveView::CreatureInspector,
                    ActiveView::CreatureInspector => ActiveView::ShellGrid,
                    ActiveView::ShellGrid => ActiveView::Dashboard,
                    ActiveView::ApprovalPrompt => ActiveView::Dashboard,
                };
                true
            },
            KeyCode::Up => {
                if self.selected_creature > 0 {
                    self.selected_creature = self.selected_creature - 1;
                }
                true
            },
            KeyCode::Down => {
                let n = self.creatures.len();
                if n > 0 && self.selected_creature < n - 1 {
                    self.selected_creature = self.selected_creature + 1;
                }
                true
            },
            _ => false,
        }
    }
}

/// A row of the shell grid: a creature's world and instance, its last
/// command, and its state.
#[derive(Debug, Clone)]
pub struct ShellGridRow {
    pub label: String,
    pub command: String,
    pub status: String,
}

/// The shell grid row of a creature: `<world>:<id>`, its last action, its
/// state.
pub open spec fn grid_row(c: CreatureRow) -> (Seq<char>, Seq<char>, Seq<char>) {
    (c.world@ + ":"@ + c.id@, c.last_action@, c.state@)
}

/// The rows of the shell grid: one per creature, in order.
pub fn shell_grid_rows(app: &App) -> (rows: Vec<ShellGridRow>)
    ensures
        rows@.map_values(|r: ShellGridRow| (r.label@, r.command@, r.status@)) == app.creatures@.map_values(
            |c: CreatureRow| grid_row(c),
        ),
{
    let mut rows: Vec<ShellGridRow> = Vec::new();
    let mut i: usize = 0;
    while i < app.creatures.len()
        invariant
            i <= app.creatures@.len(),
            rows@.map_values(|r: ShellGridRow| (r.label@, r.command@, r.status@)) == app.creatures@.take(
                i as int,
            ).map_values(|c: CreatureRow| grid_row(c)),
        decreases app.creatures.len() - i,
    {
        let c = &app.creatures[i];
        let ghost before = rows@.map_values(|r: ShellGridRow| (r.label@, r.command@, r.status@));
        rows.push(
            ShellGridRow {
                label: c.world.clone().concat(":").concat(c.id.as_str()),
                command: c.last_action.clone(),
                status: c.state.clone(),
            },
        );
        proof {
            assert(rows@.map_values(|r: ShellGridRow| (r.label@, r.command@, r.status@)) =~= before.push(
                grid_row(app.creatures@[i as int]),
            ));
            assert(app.creatures@.take(i + 1) =~= app.creatures@.take(i as int).push(
                app.creatures@[i as int],
            ));
        }
        i = i + 1;
    }
    assert(app.creatures@.take(i as int) =~= app.creatures@);
    rows
}

} // verus!
