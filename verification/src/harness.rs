//! The orchestration harness: how an objective is decomposed into tasks,
//! which creature and world take each task, and the report of a run.
//!
//! A run goes through intake, decomposition, creature and world
//! assignment, execution, verification, approval, checkpoint and memory
//! update. `RunPlan` holds the decisions; the front end drives it, sending
//! each trace event it produces to the trace sink.

use vstd::prelude::*;

use crate::creatures::{specs_view, CreatureSpec, CreatureSpecView, Temperament, AutonomyLevel, WorldKind};
use crate::outside::{json_object, new_id, now, object_of_pairs, Timestamp};
use crate::report::{autonomy_name, autonomy_text, temperament_name, temperament_text};
use crate::trace::{TraceEvent, TraceLevel, TraceSink};

verus! {

/// How the harness should execute an objective.
#[derive(Debug, Clone, Copy, PartialEq, Eq, Structural, Hash)]
pub enum ExecutionMode {
    /// Single coordinated objective with default creature routing.
    Run,
    /// Planning-only mode: no write side effects.
    Plan,
    /// Parallel execution with multiple creatures and worlds.
    Swarm,
    /// Launch a named pack of creatures with predefined skills.
    Pack,
}

/// The kind of evidence artifact.
#[derive(Debug, Clone, Copy, PartialEq, Eq, Structural, Hash)]
pub enum EvidenceKind {
    CommandTranscript,
    FileDiff,
    TraceSpan,
    Screenshot,
    TestResult,
    BrowserReplay,
    ApprovalDecision,
}

/// How much evidence the operator wants captured.
#[derive(Debug, Clone, Copy, PartialEq, Eq, Structural, Hash)]
pub enum EvidenceLevel {
    /// Minimal: only approvals and errors.
    Minimal,
    /// Standard: diffs, test results, approval records.
    Standard,
    /// Full: all traces, transcripts, screenshots.
    Full,
}

/// A reference to a captured evidence artifact.
#[derive(Debug, Clone)]
pub struct EvidenceRef {
    /// What kind of evidence this is.
    pub kind: EvidenceKind,
    /// URI or path to the artifact.
    pub uri: String,
    /// Human-readable label.
    pub label: String,
    /// When this evidence was captured.
    pub created_at: Timestamp,
}

/// The outcome status of a run.
#[derive(Debug, Clone, Copy, PartialEq, Eq, Structural, Hash)]
pub enum RunStatus {
    /// Run is currently executing.
    Running,
    /// Run completed successfully.
    Completed,
    /// Run failed with errors.
    Failed,
    /// Run was cancelled by the operator.
    Cancelled,
    /// Run is paused awaiting approval.
    AwaitingApproval,
    /// Run was rolled back.
    RolledBack,
}

/// The classification of a proposed action for approval purposes.
#[derive(Debug, Clone, Copy, PartialEq, Eq, Structural, Hash)]
pub enum ApprovalClass {
    /// Read/search/analyze: auto-approve.
    Green,
    /// Patch/install/browser actions: approve by plan or per step.
    Yellow,
    /// Commit/external messaging/infra edits: explicit approval required.
    Orange,
    /// Deploy/delete/prod/secrets/payments: blocked or dual approval.
    Red,
}

/// Record of an approval decision.
#[derive(Debug, Clone)]
pub struct ApprovalRecord {
    /// Which creature requested approval.
    pub creature_id: u128,
    /// Classification of the proposed action.
    pub class: ApprovalClass,
    /// Description of the proposed action.
    pub action: String,
    /// Whether the action was approved.
    pub approved: bool,
    /// When the decision was made.
    pub decided_at: Timestamp,
}

/// Report for an individual task within a run.
#[derive(Debug, Clone)]
pub struct TaskReport {
    /// Human-readable task description.
    pub description: String,
    /// The creature instance that ran it.
    pub creature_id: u128,
    /// Whether the task completed successfully.
    pub success: bool,
    /// The evidence gathered while it ran.
    pub evidence: Vec<EvidenceRef>,
}

/// A task report as plain values: description, creature, success and the
/// evidence gathered.
pub struct TaskReportView {
    pub description: Seq<char>,
    pub creature_id: u128,
    pub success: bool,
    pub evidence: Seq<EvidenceRef>,
}

impl TaskReport {
    pub open spec fn view(&self) -> TaskReportView {
        TaskReportView {
            description: self.description@,
            creature_id: self.creature_id,
            success: self.success,
            evidence: self.evidence@,
        }
    }
}

/// A request from the operator to execute an objective.
#[derive(Debug, Clone)]
pub struct ObjectiveRequest {
    /// The objective description in natural language.
    pub objective: String,
    /// How to execute: run, plan, swarm, or pack.
    pub mode: ExecutionMode,
    /// Optional repo root for filesystem-bound work.
    pub repo_root: Option<String>,
    /// Optional policy profile name to apply.
    pub policy_profile: Option<String>,
    /// How much evidence to capture.
    pub evidence_level: EvidenceLevel,
}

/// The complete report for a finished (or in-progress) run.
#[derive(Debug, Clone)]
pub struct RunReport {
    /// Session that owns this run.
    pub session_id: u128,
    /// Current status.
    pub status: RunStatus,
    /// Per-task reports.
    pub tasks: Vec<TaskReport>,
    /// Approval decisions made during the run.
    pub approvals: Vec<ApprovalRecord>,
    /// All evidence collected.
    pub evidence: Vec<EvidenceRef>,
    /// Checkpoints created during the run.
    pub checkpoints: Vec<u128>,
}

/// The task reports of a list, as plain values.
pub open spec fn reports_view(v: Seq<TaskReport>) -> Seq<TaskReportView> {
    v.map_values(|t: TaskReport| t.view())
}

/// The tasks every objective is decomposed into, in order.
pub open spec fn decomposed_tasks() -> Seq<Seq<char>> {
    seq![
        "analyze codebase structure"@,
        "identify affected modules"@,
        "apply changes"@,
        "run verification checks"@,
    ]
}

/// Which of `n` available creatures takes task `i`: the `i`-th, or the
/// first once the creatures run out.
pub open spec fn assigned_index(i: int, n: int) -> int {
    if i < n {
        i
    } else {
        0
    }
}

/// The world a creature works in: its first preferred world, or the local
/// shell when it has none.
pub open spec fn world_of(c: CreatureSpecView) -> WorldKind {
    if c.preferred_worlds.len() > 0 {
        c.preferred_worlds[0]
    } else {
        WorldKind::LocalShell
    }
}

/// The world a creature is assigned.
pub fn assigned_world(c: &CreatureSpec) -> (w: WorldKind)
    ensures
        w == world_of(c.view()),
{
    if c.preferred_worlds.len() > 0 {
        c.preferred_worlds[0]
    } else {
        WorldKind::LocalShell
    }
}

/// Decompose an objective into its tasks.
pub fn decompose(objective: &str) -> (tasks: Vec<String>)
    ensures
        tasks@.map_values(|t: String| t@) == decomposed_tasks(),
{
    let mut tasks: Vec<String> = Vec::new();
    tasks.push(String::from_str("analyze codebase structure"));
    tasks.push(String::from_str("identify affected modules"));
    tasks.push(String::from_str("apply changes"));
    tasks.push(String::from_str("run verification checks"));
    assert(tasks@.map_values(|t: String| t@) =~= decomposed_tasks());
    tasks
}

/// What a creature's execution of a task writes to the trace: the session,
/// the creature instance, the span `execute:<creature>`, the message
/// `executing: <task>`, and the creature's autonomy and temperament.
#[derive(Debug, Clone)]
pub struct TaskTrace {
    pub session_id: u128,
    pub creature_id: u128,
    pub span: String,
    pub message: String,
    pub autonomy: AutonomyLevel,
    pub temperament: Temperament,
    /// The world the creature works in.
    pub world: WorldKind,
}

/// The decisions of one objective run: its tasks, the creature and world
/// of each, and the reports of the tasks executed so far.
pub struct RunPlan {
    session_id: u128,
    tasks: Vec<String>,
    creatures: Vec<CreatureSpec>,
    next: usize,
    reports: Vec<TaskReport>,
}

impl RunPlan {
    /// The session that owns the run.
    pub closed spec fn session(&self) -> u128 {
        self.session_id
    }

    /// The tasks of the run, in order.
    pub closed spec fn tasks_view(&self) -> Seq<Seq<char>> {
        self.tasks@.map_values(|t: String| t@)
    }

    /// The creatures available to the run.
    pub closed spec fn creatures_view(&self) -> Seq<CreatureSpecView> {
        specs_view(self.creatures@)
    }

    /// The number of tasks executed so far.
    pub closed spec fn executed(&self) -> nat {
        self.next as nat
    }

    /// The reports of the tasks executed so far.
    pub closed spec fn reports(&self) -> Seq<TaskReportView> {
        reports_view(self.reports@)
    }

    /// The creature that takes task `i`.
    pub open spec fn creature_for(&self, i: int) -> CreatureSpecView {
        self.creatures_view()[assigned_index(i, self.creatures_view().len() as int)]
    }

    pub closed spec fn wf(&self) -> bool {
        &&& self.creatures@.len() > 0
        &&& self.next <= self.tasks@.len()
        &&& self.reports@.len() == self.next
        &&& self.tasks_view() == decomposed_tasks()
        &&& forall|i: int| 0 <= i < self.next ==> {
            &&& (#[trigger] self.reports@[i]).description@ == self.tasks_view()[i]
            &&& self.reports@[i].success
            &&& self.reports@[i].evidence@.len() == 0
        }
    }

    /// Start a run: a fresh session, the objective decomposed into its
    /// tasks, and task `i` assigned to creature `i` of `available`, or to the
    /// first creature once they run out.
    pub fn start(objective: &str, available: Vec<CreatureSpec>) -> (p: RunPlan)
        requires
            available@.len() > 0,
        ensures
            p.wf(),
            p.tasks_view() == decomposed_tasks(),
            p.creatures_view() == specs_view(available@),
            p.executed() == 0,
    {
        let session_id = new_id();
        let tasks = decompose(objective);
        RunPlan { session_id, tasks, creatures: available, next: 0, reports: Vec::new() }
    }

    /// The session that owns the run.
    pub fn session_id(&self) -> (id: u128)
        ensures
            id == self.session(),
    {
        self.session_id
    }

    /// Whether every task has been executed.
    pub fn is_complete(&self) -> (b: bool)
        requires
            self.wf(),
        ensures
            b == (self.executed() == decomposed_tasks().len()),
    {
        self.next == self.tasks.len()
    }

    /// Execute the next task: a fresh creature instance of the assigned
    /// creature takes it, the task is reported successful with no evidence,
    /// and the trace event of the execution is returned. `None` once every
    /// task has been executed.
    pub fn execute_next(&mut self) -> (t: Option<TaskTrace>)
        requires
            old(self).wf(),
        ensures
            final(self).wf(),
            final(self).session() == old(self).session(),
            final(self).creatures_view() == old(self).creatures_view(),
            old(self).executed() == decomposed_tasks().len() ==> {
                &&& t is None
                &&& final(self).executed() == old(self).executed()
                &&& final(self).reports() == old(self).reports()
            },
            old(self).executed() < decomposed_tasks().len() ==> {
                let i = old(self).executed() as int;
                let c = old(self).creature_for(i);
                &&& t matches Some(tr) && {
                    &&& tr.session_id == old(self).session()
                    &&& tr.span@ == "execute:"@ + c.name
                    &&& tr.message@ == "executing: "@ + decomposed_tasks()[i]
                    &&& tr.autonomy == c.autonomy
                    &&& tr.temperament == c.temperament
                    &&& tr.world == world_of(c)
                    &&& final(self).reports() == old(self).reports().push(
                        TaskReportView {
                            description: decomposed_tasks()[i],
                            creature_id: tr.creature_id,
                            success: true,
                            evidence: Seq::<EvidenceRef>::empty(),
                        },
                    )
                }
                &&& final(self).executed() == old(self).executed() + 1
            },
    {
        if self.next >= self.tasks.len() {
            return None;
        }
        let i = self.next;
        let k: usize = if i < self.creatures.len() {
            i
        } else {
            0
        };
        let ghost cv = specs_view(self.creatures@);
        proof {
            assert(cv[k as int] == self.creatures@[k as int].view());
        }
        let creature_id = new_id();
        let creature = &self.creatures[k];
        let span = String::from_str("execute:").concat(creature.name.as_str());
        let message = String::from_str("executing: ").concat(self.tasks[i].as_str());
        let world = assigned_world(creature);
        let trace = TaskTrace {
            session_id: self.session_id,
            creature_id,
            span,
            message,
            autonomy: creature.autonomy,
            temperament: creature.temperament,
            world,
        };
        let description = self.tasks[i].clone();
        let ghost before = reports_view(self.reports@);
        self.reports.push(TaskReport { description, creature_id, success: true, evidence: Vec::new() });
        self.next = i + 1;
        proof {
            assert(reports_view(self.reports@) =~= before.push(self.reports@[i as int].view()));
            assert(self.tasks_view()[i as int] == self.tasks@[i as int]@);
        }
        Some(trace)
    }

    /// Finish the run once every task has been executed: one fresh
    /// checkpoint, the task reports in order, no approvals and no evidence,
    /// and the status `Completed`.
    pub fn finish(self) -> (r: RunReport)
        requires
            self.wf(),
            self.executed() == decomposed_tasks().len(),
        ensures
            r.session_id == self.session(),
            r.status == RunStatus::Completed,
            reports_view(r.tasks@) == self.reports(),
            r.tasks@.len() == decomposed_tasks().len(),
            forall|i: int| 0 <= i < r.tasks@.len() ==> (#[trigger] r.tasks@[i]).success,
            r.approvals@.len() == 0,
            r.evidence@.len() == 0,
            r.checkpoints@.len() == 1,
    {
        let checkpoint_id = new_id();
        let mut checkpoints: Vec<u128> = Vec::new();
        checkpoints.push(checkpoint_id);
        RunReport {
            session_id: self.session_id,
            status: RunStatus::Completed,
            tasks: self.reports,
            approvals: Vec::new(),
            evidence: Vec::new(),
            checkpoints,
        }
    }
}


/// What the trace of task `i` says when `c` takes it in session `session`.
pub open spec fn trace_matches(tr: TaskTrace, session: u128, i: int, c: CreatureSpecView) -> bool {
    &&& tr.session_id == session
    &&& tr.span@ == "execute:"@ + c.name
    &&& tr.message@ == "executing: "@ + decomposed_tasks()[i]
    &&& tr.autonomy == c.autonomy
    &&& tr.temperament == c.temperament
    &&& tr.world == world_of(c)
}

/// Run an objective: decompose it, give task `i` to creature `i` of
/// `available` (the first one once they run out), execute every task, and
/// report. Gives the report and the trace events of the executions, in
/// order; each task's report names the creature instance of its event.
#[verifier::loop_isolation(false)]
pub fn run_tasks(objective: &str, available: Vec<CreatureSpec>) -> (r: (RunReport, Vec<TaskTrace>))
    requires
        available@.len() > 0,
    ensures
        r.0.status == RunStatus::Completed,
        r.0.checkpoints@.len() == 1,
        r.0.approvals@.len() == 0,
        r.0.evidence@.len() == 0,
        r.0.tasks@.len() == decomposed_tasks().len(),
        r.1@.len() == decomposed_tasks().len(),
        forall|i: int|
            0 <= i < decomposed_tasks().len() ==> {
                &&& (#[trigger] r.0.tasks@[i]).description@ == decomposed_tasks()[i]
                &&& r.0.tasks@[i].success
                &&& r.0.tasks@[i].evidence@.len() == 0
                &&& r.0.tasks@[i].creature_id == r.1@[i].creature_id
                &&& trace_matches(
                    r.1@[i],
                    r.0.session_id,
                    i,
                    specs_view(available@)[assigned_index(i, available@.len() as int)],
                )
            },
{
    let ghost av = specs_view(available@);
    let mut plan = RunPlan::start(objective, available);
    let mut traces: Vec<TaskTrace> = Vec::new();
    while !plan.is_complete()
        invariant
            plan.wf(),
            plan.creatures_view() == av,
            av.len() > 0,
            traces@.len() == plan.executed(),
            plan.reports().len() == plan.executed(),
            forall|i: int|
                0 <= i < plan.executed() ==> {
                    &&& (#[trigger] plan.reports()[i]).description == decomposed_tasks()[i]
                    &&& plan.reports()[i].success
                    &&& plan.reports()[i].evidence.len() == 0
                    &&& plan.reports()[i].creature_id == traces@[i].creature_id
                    &&& trace_matches(traces@[i], plan.session(), i, av[assigned_index(i, av.len() as int)])
                },
        decreases decomposed_tasks().len() - plan.executed(),
    {
        let ghost before = plan.reports();
        let ghost n = plan.executed();
        match plan.execute_next() {
            Some(t) => {
                traces.push(t);
            },
            None => {},
        }
        proof {
            assert forall|i: int| 0 <= i < plan.executed() implies {
                &&& (#[trigger] plan.reports()[i]).description == decomposed_tasks()[i]
                &&& plan.reports()[i].success
                &&& plan.reports()[i].evidence.len() == 0
                &&& plan.reports()[i].creature_id == traces@[i].creature_id
                &&& trace_matches(traces@[i], plan.session(), i, av[assigned_index(i, av.len() as int)])
            } by {
                if i < n {
                    assert(plan.reports()[i] == before[i]);
                }
            }
        }
    }
    let report = plan.finish();
    proof {
        assert forall|i: int| 0 <= i < decomposed_tasks().len() implies {
            &&& (#[trigger] report.tasks@[i]).description@ == decomposed_tasks()[i]
            &&& report.tasks@[i].success
            &&& report.tasks@[i].evidence@.len() == 0
            &&& report.tasks@[i].creature_id == traces@[i].creature_id
            &&& trace_matches(
                traces@[i],
                report.session_id,
                i,
                specs_view(available@)[assigned_index(i, available@.len() as int)],
            )
        } by {
            assert(reports_view(report.tasks@)[i] == report.tasks@[i].view());
            assert(plan.reports()[i].creature_id == traces@[i].creature_id);
        }
    }
    (report, traces)
}


/// The fields of a task's trace event: the creature's autonomy and
/// temperament, by name.
pub open spec fn task_fields(autonomy: AutonomyLevel, temperament: Temperament) -> serde_json::Value {
    json_object(seq![("autonomy"@, autonomy_name(autonomy)), ("temperament"@, temperament_name(temperament))])
}

/// The trace event of a task's execution: stamped now, at level `Info`,
/// with the task trace's session, creature instance, span and message, and
/// the creature's autonomy and temperament as fields.
pub fn task_event(tr: &TaskTrace) -> (e: TraceEvent)
    ensures
        e.level == TraceLevel::Info,
        e.session_id == tr.session_id,
        e.creature_id == Some(tr.creature_id),
        e.span@ == tr.span@,
        e.message@ == tr.message@,
        e.fields == task_fields(tr.autonomy, tr.temperament),
{
    let mut pairs: Vec<(String, String)> = Vec::new();
    pairs.push((String::from_str("autonomy"), String::from_str(autonomy_text(tr.autonomy))));
    pairs.push((String::from_str("temperament"), String::from_str(temperament_text(tr.temperament))));
    proof {
        assert(pairs@.map_values(|p: (String, String)| (p.0@, p.1@)) =~= seq![
            ("autonomy"@, autonomy_name(tr.autonomy)),
            ("temperament"@, temperament_name(tr.temperament)),
        ]);
    }
    TraceEvent {
        timestamp: now(),
        level: TraceLevel::Info,
        session_id: tr.session_id,
        creature_id: Some(tr.creature_id),
        span: tr.span.clone(),
        message: tr.message.clone(),
        fields: object_of_pairs(pairs),
    }
}

/// What the event of task `i` says when creature `c` takes it in session
/// `session`.
pub open spec fn task_event_matches(e: TraceEvent, session: u128, i: int, c: CreatureSpecView) -> bool {
    &&& e.level == TraceLevel::Info
    &&& e.session_id == session
    &&& e.creature_id is Some
    &&& e.span@ == "execute:"@ + c.name
    &&& e.message@ == "executing: "@ + decomposed_tasks()[i]
    &&& e.fields == task_fields(c.autonomy, c.temperament)
}

/// Whether `es` are the events of the first tasks of a run in `session`
/// over the creatures `av`, in order.
pub open spec fn task_events(es: Seq<TraceEvent>, session: u128, av: Seq<CreatureSpecView>) -> bool {
    &&& es.len() <= decomposed_tasks().len()
    &&& forall|i: int|
        0 <= i < es.len() ==> task_event_matches(
            #[trigger] es[i],
            session,
            i,
            av[assigned_index(i, av.len() as int)],
        )
}

/// Run an objective as `run_tasks` does, emitting each task's trace event to
/// `sink` as the task executes. The run succeeds exactly when the sink takes
/// every event; the first event it refuses stops the run, and its error is
/// given back, the events taken before it staying taken.
pub fn run_objective<S: TraceSink>(objective: &str, available: Vec<CreatureSpec>, sink: &mut S) -> (r: Result<RunReport, String>)
    requires
        available@.len() > 0,
    ensures
        final(sink).emitted().len() >= old(sink).emitted().len(),
        final(sink).emitted().take(old(sink).emitted().len() as int) == old(sink).emitted(),
        final(sink).offered().len() > old(sink).offered().len(),
        final(sink).offered().take(old(sink).offered().len() as int) == old(sink).offered(),
        ({
            let es = final(sink).emitted().skip(old(sink).emitted().len() as int);
            let os = final(sink).offered().skip(old(sink).offered().len() as int);
            &&& forall|i: int| 0 <= i < es.len() ==> #[trigger] os[i] == (es[i], true)
            &&& (r is Ok <==> os.last().1)
            &&& (r is Ok ==> os.len() == es.len())
            &&& (r is Err ==> os.len() == es.len() + 1 && exists|session: u128|
                task_events(es.push(os.last().0), session, specs_view(available@)))
        }),
        match r {
            Ok(rep) => {
                let es = final(sink).emitted().skip(old(sink).emitted().len() as int);
                &&& rep.status == RunStatus::Completed
                &&& rep.checkpoints@.len() == 1
                &&& rep.approvals@.len() == 0
                &&& rep.evidence@.len() == 0
                &&& rep.tasks@.len() == decomposed_tasks().len()
                &&& es.len() == decomposed_tasks().len()
                &&& task_events(es, rep.session_id, specs_view(available@))
                &&& forall|i: int|
                    0 <= i < decomposed_tasks().len() ==> {
                        &&& (#[trigger] rep.tasks@[i]).description@ == decomposed_tasks()[i]
                        &&& rep.tasks@[i].success
                        &&& rep.tasks@[i].evidence@.len() == 0
                        &&& es[i].creature_id == Some(rep.tasks@[i].creature_id)
                    }
            },
            Err(_) => {
                let es = final(sink).emitted().skip(old(sink).emitted().len() as int);
                &&& es.len() < decomposed_tasks().len()
                &&& exists|session: u128| task_events(es, session, specs_view(available@))
            },
        },
{
    let ghost av = specs_view(available@);
    let ghost e0 = sink.emitted();
    let ghost o0 = sink.offered();
    let mut plan = RunPlan::start(objective, available);
    while !plan.is_complete()
        invariant
            plan.wf(),
            o0 == old(sink).offered(),
            sink.offered().len() == o0.len() + plan.executed(),
            sink.offered().take(o0.len() as int) == o0,
            forall|i: int|
                0 <= i < plan.executed() ==> #[trigger] sink.offered()[o0.len() + i] == (
                    sink.emitted()[e0.len() + i],
                    true,
                ),
            plan.creatures_view() == av,
            av == specs_view(available@),
            e0 == old(sink).emitted(),
            av.len() > 0,
            sink.emitted().len() == e0.len() + plan.executed(),
            sink.emitted().take(e0.len() as int) == e0,
            plan.reports().len() == plan.executed(),
            task_events(sink.emitted().skip(e0.len() as int), plan.session(), av),
            forall|i: int|
                0 <= i < plan.executed() ==> {
                    &&& (#[trigger] plan.reports()[i]).description == decomposed_tasks()[i]
                    &&& plan.reports()[i].success
                    &&& plan.reports()[i].evidence.len() == 0
                    &&& sink.emitted()[e0.len() + i].creature_id == Some(plan.reports()[i].creature_id)
                },
        decreases decomposed_tasks().len() - plan.executed(),
    {
        let ghost before = plan.reports();
        let ghost n = plan.executed();
        let ghost em = sink.emitted();
        let ghost om = sink.offered();
        match plan.execute_next() {
            Some(t) => {
                let e = task_event(&t);
                let res = sink.emit(e);
                match res {
                    Ok(()) => {},
                    Err(msg) => {
                        proof {
                            let es = sink.emitted().skip(e0.len() as int);
                            let os = sink.offered().skip(o0.len() as int);
                            assert(es == em.skip(e0.len() as int));
                            assert(sink.offered() == om.push((e, false)));
                            assert(sink.offered().take(o0.len() as int) =~= o0) by {
                                assert(om.take(o0.len() as int) =~= o0);
                            }
                            assert(os.last() == (e, false));
                            assert forall|i: int| 0 <= i < es.len() implies #[trigger] os[i] == (es[i], true) by {
                                assert(os[i] == om[o0.len() + i]);
                                assert(es[i] == em[e0.len() + i]);
                            }
                            assert(task_events(es.push(e), plan.session(), av)) by {
                                assert forall|i: int| 0 <= i < es.push(e).len() implies task_event_matches(
                                    #[trigger] es.push(e)[i],
                                    plan.session(),
                                    i,
                                    av[assigned_index(i, av.len() as int)],
                                ) by {
                                    if i < es.len() {
                                        assert(es.push(e)[i] == es[i]);
                                    }
                                }
                            }
                            assert(os.len() == es.len() + 1);
                            assert(task_events(es.push(os.last().0), plan.session(), specs_view(available@)));
                        }
                        return Err(msg);
                    },
                }
                proof {
                    assert(sink.offered() == om.push((e, true)));
                    assert(sink.offered().take(o0.len() as int) =~= o0) by {
                        assert(om.take(o0.len() as int) =~= o0);
                    }
                    assert(sink.emitted() == em.push(e));
                    assert(sink.emitted().take(e0.len() as int) =~= e0) by {
                        assert(em.take(e0.len() as int) =~= e0);
                    }
                    assert(sink.emitted().skip(e0.len() as int) =~= em.skip(e0.len() as int).push(e));
                }
            },
            None => {},
        }
        proof {
            assert forall|i: int| 0 <= i < plan.executed() implies {
                &&& (#[trigger] plan.reports()[i]).description == decomposed_tasks()[i]
                &&& plan.reports()[i].success
                &&& plan.reports()[i].evidence.len() == 0
                &&& sink.emitted()[e0.len() + i].creature_id == Some(plan.reports()[i].creature_id)
            } by {
                if i < n {
                    assert(plan.reports()[i] == before[i]);
                    assert(sink.emitted()[e0.len() + i] == em[e0.len() + i]);
                }
            }
            assert forall|i: int| 0 <= i < plan.executed() implies #[trigger] sink.offered()[o0.len() + i] == (
                sink.emitted()[e0.len() + i],
                true,
            ) by {
                if i < n {
                    assert(sink.offered()[o0.len() + i] == om[o0.len() + i]);
                    assert(sink.emitted()[e0.len() + i] == em[e0.len() + i]);
                }
            }
        }
    }
    let report = plan.finish();
    proof {
        assert forall|i: int| 0 <= i < decomposed_tasks().len() implies {
            &&& (#[trigger] report.tasks@[i]).description@ == decomposed_tasks()[i]
            &&& report.tasks@[i].success
            &&& report.tasks@[i].evidence@.len() == 0
            &&& sink.emitted().skip(e0.len() as int)[i].creature_id == Some(report.tasks@[i].creature_id)
        } by {
            assert(reports_view(report.tasks@)[i] == report.tasks@[i].view());
        }
        let es = sink.emitted().skip(e0.len() as int);
        let os = sink.offered().skip(o0.len() as int);
        assert forall|i: int| 0 <= i < es.len() implies #[trigger] os[i] == (es[i], true) by {
            assert(os[i] == sink.offered()[o0.len() + i]);
        }
        assert(os.last() == os[es.len() - 1]);
    }
    Ok(report)
}

} // verus!
