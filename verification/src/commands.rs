//! What each command of the command line does: a line to print for the
//! commands that only report, or the work to perform for the others
//! (running an objective, the chat, the session, tool, creature and trace
//! commands that read files or the environment).

use vstd::prelude::*;

use crate::cli::{
    ApproveCmd, AutonomyCmd, BrowserCmd, CheckpointCmd, Command, CreatureCmd, DaemonCmd, EvalCmd,
    MemoryCmd, PhoneCmd, PolicyCmd, SessionCmd, SkillCmd, ToolCmd, TraceCmd, WorldCmd,
};
use crate::harness::ExecutionMode;
use crate::text::{decimal, decimal_of, string_of};

verus! {

/// The work a command asks for.
#[derive(Debug)]
pub enum Step {
    /// Print this line; the command succeeds.
    Say(String),
    /// Run an objective through the agent loop.
    RunObjective { objective: String, mode: ExecutionMode },
    /// Open the interactive chat, showing an objective first if one is given.
    Chat { objective: Option<String> },
    /// List the stored sessions.
    ListSessions,
    /// Fork the stored session the text names.
    ForkSession { session_id: String },
    /// List the built-in tools.
    ListTools,
    /// Describe the built-in tool of this name.
    InspectTool { name: String },
    /// Report whether this tool is available.
    HealthcheckTool { name: String },
    /// List the built-in creatures.
    ListCreatures,
    /// Print the trace of the session the text names.
    ExportTrace { session_id: String },
}

/// A step as plain values.
pub enum StepView {
    Say(Seq<char>),
    RunObjective { objective: Seq<char>, mode: ExecutionMode },
    Chat { objective: Option<Seq<char>> },
    ListSessions,
    ForkSession { session_id: Seq<char> },
    ListTools,
    InspectTool { name: Seq<char> },
    HealthcheckTool { name: Seq<char> },
    ListCreatures,
    ExportTrace { session_id: Seq<char> },
}

impl Step {
    pub open spec fn view(&self) -> StepView {
        match *self {
            Step::Say(s) => StepView::Say(s@),
            Step::RunObjective { objective, mode } => StepView::RunObjective { objective: objective@, mode },
            Step::Chat { objective } => StepView::Chat {
                objective: match objective {
                    Some(o) => Some(o@),
                    None => None,
                },
            },
            Step::ListSessions => StepView::ListSessions,
            Step::ForkSession { session_id } => StepView::ForkSession { session_id: session_id@ },
            Step::ListTools => StepView::ListTools,
            Step::InspectTool { name } => StepView::InspectTool { name: name@ },
            Step::HealthcheckTool { name } => StepView::HealthcheckTool { name: name@ },
            Step::ListCreatures => StepView::ListCreatures,
            Step::ExportTrace { session_id } => StepView::ExportTrace { session_id: session_id@ },
        }
    }
}

/// The line of a command that is not wired to a backend: `[stub] <label>`.
pub open spec fn stub(label: Seq<char>) -> StepView {
    StepView::Say("[stub] "@ + label)
}

/// A line of information.
pub open spec fn info(text: Seq<char>) -> StepView {
    StepView::Say("[info] "@ + text)
}

/// What a command does.
pub open spec fn step_of(cmd: Command) -> StepView {
    match cmd {
        Command::Init => stub("chimera init"@),
        Command::Up => stub("chimera up"@),
        Command::Down => stub("chimera down"@),
        Command::Doctor => stub("chimera doctor"@),
        Command::Status => stub("chimera status"@),
        Command::Daemon { cmd } => match cmd {
            DaemonCmd::Start => stub("daemon start"@),
            DaemonCmd::Stop => stub("daemon stop"@),
        },
        Command::Run { objective, interactive } => if interactive {
            StepView::Chat { objective: Some(objective@) }
        } else {
            StepView::RunObjective { objective: objective@, mode: ExecutionMode::Run }
        },
        Command::Plan { objective } => StepView::RunObjective { objective: objective@, mode: ExecutionMode::Plan },
        Command::Swarm { objective } => StepView::RunObjective {
            objective: objective@,
            mode: ExecutionMode::Swarm,
        },
        Command::Pack { name } => stub("pack: "@ + name@),
        Command::Tui { objective } => StepView::Chat {
            objective: match objective {
                Some(o) => Some(o@),
                None => None,
            },
        },
        Command::Session { cmd } => match cmd {
            SessionCmd::List => StepView::ListSessions,
            SessionCmd::Resume { session_id } => info(
                "resume is implicit; sessions are stateless files. "@ + session_id@,
            ),
            SessionCmd::Fork { session_id } => StepView::ForkSession { session_id: session_id@ },
        },
        Command::Checkpoint { cmd } => match cmd {
            CheckpointCmd::Create => stub("checkpoint create"@),
            CheckpointCmd::List => stub("checkpoint list"@),
        },
        Command::Rollback { checkpoint_id } => stub("rollback "@ + checkpoint_id@),
        Command::Replay { session_id } => stub("replay "@ + session_id@),
        Command::Creature { cmd } => match cmd {
            CreatureCmd::List => StepView::ListCreatures,
            CreatureCmd::Spawn { name, count } => info(
                "creature spawn: "@ + name@ + " x"@ + decimal(count as nat)
                    + " (runtime spawning not yet implemented)"@,
            ),
            CreatureCmd::Inspect { instance } => info(
                "creature inspect: "@ + instance@ + " (runtime registry not yet implemented)"@,
            ),
            CreatureCmd::Stop { instance } => info("creature stop: "@ + instance@),
            CreatureCmd::Promote { instance } => info("creature promote: "@ + instance@),
            CreatureCmd::Leash { instance } => info("creature leash: "@ + instance@),
        },
        Command::Tool { cmd } => match cmd {
            ToolCmd::List => StepView::ListTools,
            ToolCmd::Inspect { name } => StepView::InspectTool { name: name@ },
            ToolCmd::Healthcheck { name } => StepView::HealthcheckTool { name: name@ },
            ToolCmd::Test { name } => info("tool test: "@ + name@ + " (no dry-run backend)"@),
            ToolCmd::Disable { name } => info("tool disable: "@ + name@ + " (not yet persisted)"@),
        },
        Command::World { cmd } => match cmd {
            WorldCmd::List => stub("world list"@),
            WorldCmd::Spawn { kind } => stub("world spawn "@ + kind@),
        },
        Command::Browser { cmd } => match cmd {
            BrowserCmd::Open { target } => stub("browser open "@ + target@),
        },
        Command::Phone { cmd } => match cmd {
            PhoneCmd::Boot { device } => stub("phone boot "@ + device@),
        },
        Command::Approve { cmd } => match cmd {
            ApproveCmd::Next => stub("approve next"@),
            ApproveCmd::Plan => stub("approve plan"@),
        },
        Command::Deny { call_id } => stub("deny "@ + call_id@),
        Command::Policy { cmd } => match cmd {
            PolicyCmd::Show => stub("policy show"@),
            PolicyCmd::Edit => stub("policy edit"@),
        },
        Command::Autonomy { cmd } => match cmd {
            AutonomyCmd::SetLevel { level } => stub("autonomy set "@ + level@),
        },
        Command::Leash { target } => stub("leash "@ + target@),
        Command::Trace { cmd } => match cmd {
            TraceCmd::Live => info("trace live: use the TUI (chimera tui) for live traces"@),
            TraceCmd::Show { task_id } => info(
                "trace show "@ + task_id@ + ": per-task traces not yet indexed"@,
            ),
            TraceCmd::Export { session_id } => StepView::ExportTrace { session_id: session_id@ },
        },
        Command::Eval { cmd } => match cmd {
            EvalCmd::Run { name } => stub("eval run "@ + name@),
            EvalCmd::Compare { checkpoint_a, checkpoint_b } => stub(
                "eval compare "@ + checkpoint_a@ + " "@ + checkpoint_b@,
            ),
        },
        Command::Memory { cmd } => match cmd {
            MemoryCmd::List => stub("memory list"@),
            MemoryCmd::Show { episode_id } => stub("memory show "@ + episode_id@),
        },
        Command::Skill { cmd } => match cmd {
            SkillCmd::List => stub("skill list"@),
            SkillCmd::Inspect { name } => stub("skill inspect "@ + name@),
            SkillCmd::Run { name } => stub("skill run "@ + name@),
        },
        Command::Schedule { frequency, objective } => stub(
            "schedule "@ + frequency@ + ": "@ + objective@,
        ),
        Command::Watch { objective } => stub("watch: "@ + objective@),
    }
}

fn stub_line(label: &str) -> (s: Step)
    ensures
        s.view() == stub(label@),
{
    Step::Say(String::from_str("[stub] ").concat(label))
}

fn stub_with(label: &str, arg: &str) -> (s: Step)
    ensures
        s.view() == stub(label@ + arg@),
{
    let s = String::from_str("[stub] ").concat(label).concat(arg);
    assert(s@ =~= "[stub] "@ + (label@ + arg@));
    Step::Say(s)
}

fn info_line(text: String) -> (s: Step)
    ensures
        s.view() == info(text@),
{
    Step::Say(String::from_str("[info] ").concat(text.as_str()))
}

/// What a command does: the line it prints, or the work it asks for.
pub fn dispatch_step(cmd: Command) -> (s: Step)
    ensures
        s.view() == step_of(cmd),
{
    match cmd {
        Command::Init => stub_line("chimera init"),
        Command::Up => stub_line("chimera up"),
        Command::Down => stub_line("chimera down"),
        Command::Doctor => stub_line("chimera doctor"),
        Command::Status => stub_line("chimera status"),
        Command::Daemon { cmd } => match cmd {
            DaemonCmd::Start => stub_line("daemon start"),
            DaemonCmd::Stop => stub_line("daemon stop"),
        },
        Command::Run { objective, interactive } => if interactive {
            Step::Chat { objective: Some(objective) }
        } else {
            Step::RunObjective { objective, mode: ExecutionMode::Run }
        },
        Command::Plan { objective } => Step::RunObjective { objective, mode: ExecutionMode::Plan },
        Command::Swarm { objective } => Step::RunObjective { objective, mode: ExecutionMode::Swarm },
        Command::Pack { name } => stub_with("pack: ", name.as_str()),
        Command::Tui { objective } => Step::Chat { objective },
        Command::Session { cmd } => match cmd {
            SessionCmd::List => Step::ListSessions,
            SessionCmd::Resume { session_id } => info_line(
                String::from_str("resume is implicit; sessions are stateless files. ").concat(
                    session_id.as_str(),
                ),
            ),
            SessionCmd::Fork { session_id } => Step::ForkSession { session_id },
        },
        Command::Checkpoint { cmd } => match cmd {
            CheckpointCmd::Create => stub_line("checkpoint create"),
            CheckpointCmd::List => stub_line("checkpoint list"),
        },
        Command::Rollback { checkpoint_id } => stub_with("rollback ", checkpoint_id.as_str()),
        Command::Replay { session_id } => stub_with("replay ", session_id.as_str()),
        Command::Creature { cmd } => match cmd {
            CreatureCmd::List => Step::ListCreatures,
            CreatureCmd::Spawn { name, count } => info_line(
                String::from_str("creature spawn: ").concat(name.as_str()).concat(" x").concat(
                    string_of(&decimal_of(count as u64)).as_str(),
                ).concat(" (runtime spawning not yet implemented)"),
            ),
            CreatureCmd::Inspect { instance } => info_line(
                String::from_str("creature inspect: ").concat(instance.as_str()).concat(
                    " (runtime registry not yet implemented)",
                ),
            ),
            CreatureCmd::Stop { instance } => info_line(
                String::from_str("creature stop: ").concat(instance.as_str()),
            ),
            CreatureCmd::Promote { instance } => info_line(
                String::from_str("creature promote: ").concat(instance.as_str()),
            ),
            CreatureCmd::Leash { instance } => info_line(
                String::from_str("creature leash: ").concat(instance.as_str()),
            ),
        },
        Command::Tool { cmd } => match cmd {
            ToolCmd::List => Step::ListTools,
            ToolCmd::Inspect { name } => Step::InspectTool { name },
            ToolCmd::Healthcheck { name } => Step::HealthcheckTool { name },
            ToolCmd::Test { name } => info_line(
                String::from_str("tool test: ").concat(name.as_str()).concat(" (no dry-run backend)"),
            ),
            ToolCmd::Disable { name } => info_line(
                String::from_str("tool disable: ").concat(name.as_str()).concat(" (not yet persisted)"),
            ),
        },
        Command::World { cmd } => match cmd {
            WorldCmd::List => stub_line("world list"),
            WorldCmd::Spawn { kind } => stub_with("world spawn ", kind.as_str()),
        },
        Command::Browser { cmd } => match cmd {
            BrowserCmd::Open { target } => stub_with("browser open ", target.as_str()),
        },
        Command::Phone { cmd } => match cmd {
            PhoneCmd::Boot { device } => stub_with("phone boot ", device.as_str()),
        },
        Command::Approve { cmd } => match cmd {
            ApproveCmd::Next => stub_line("approve next"),
            ApproveCmd::Plan => stub_line("approve plan"),
        },
        Command::Deny { call_id } => stub_with("deny ", call_id.as_str()),
        Command::Policy { cmd } => match cmd {
            PolicyCmd::Show => stub_line("policy show"),
            PolicyCmd::Edit => stub_line("policy edit"),
        },
        Command::Autonomy { cmd } => match cmd {
            AutonomyCmd::SetLevel { level } => stub_with("autonomy set ", level.as_str()),
        },
        Command::Leash { target } => stub_with("leash ", target.as_str()),
        Command::Trace { cmd } => match cmd {
            TraceCmd::Live => info_line(
                String::from_str("trace live: use the TUI (chimera tui) for live traces"),
            ),
            TraceCmd::Show { task_id } => info_line(
                String::from_str("trace show ").concat(task_id.as_str()).concat(
                    ": per-task traces not yet indexed",
                ),
            ),
            TraceCmd::Export { session_id } => Step::ExportTrace { session_id },
        },
        Command::Eval { cmd } => match cmd {
            EvalCmd::Run { name } => stub_with("eval run ", name.as_str()),
            EvalCmd::Compare { checkpoint_a, checkpoint_b } => {
                let ghost a = checkpoint_a@;
                let ghost b = checkpoint_b@;
                let s = stub_with("eval compare ", checkpoint_a.concat(" ").concat(checkpoint_b.as_str()).as_str());
                assert("eval compare "@ + (a + " "@ + b) =~= "eval compare "@ + a + " "@ + b);
                s
            },
        },
        Command::Memory { cmd } => match cmd {
            MemoryCmd::List => stub_line("memory list"),
            MemoryCmd::Show { episode_id } => stub_with("memory show ", episode_id.as_str()),
        },
        Command::Skill { cmd } => match cmd {
            SkillCmd::List => stub_line("skill list"),
            SkillCmd::Inspect { name } => stub_with("skill inspect ", name.as_str()),
            SkillCmd::Run { name } => stub_with("skill run ", name.as_str()),
        },
        Command::Schedule { frequency, objective } => {
            let ghost f = frequency@;
            let ghost o = objective@;
            let s = stub_with("schedule ", frequency.concat(": ").concat(objective.as_str()).as_str());
            assert("schedule "@ + (f + ": "@ + o) =~= "schedule "@ + f + ": "@ + o);
            s
        },
        Command::Watch { objective } => stub_with("watch: ", objective.as_str()),
    }
}

} // verus!
