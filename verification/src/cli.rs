//! The command-line grammar: global options, subcommands and their
//! arguments, parsed from the program's arguments.

use vstd::prelude::*;

use crate::input::{find_char, lemma_find_char};
use crate::text::{chars_of, parse_unsigned, parse_unsigned_chars, same_chars, string_of};

verus! {

/// Output format for command responses.
#[derive(Debug, Clone, Copy, PartialEq, Eq, Structural)]
pub enum OutputFormat {
    Human,
    Json,
}

/// A parsed command line.
#[derive(Debug)]
pub struct Cli {
    /// Output format (`--format human|json`, default human).
    pub format: OutputFormat,
    /// Policy profile to use (`--profile <name>`).
    pub profile: Option<String>,
    /// Verbose tracing output (`-v`, `--verbose`).
    pub verbose: bool,
    pub command: Command,
}

/// Why a command line was not accepted.
#[derive(Debug)]
pub enum CliError {
    /// No subcommand was given where one is required.
    MissingSubcommand,
    /// The word does not name a (sub)command.
    UnknownSubcommand(String),
    /// The command lacks a required argument.
    MissingArgument,
    /// The command got an argument it does not take.
    UnexpectedArgument(String),
    /// The option is not known, or not taken by the command.
    UnknownOption(String),
    /// The option needs a value and got none.
    MissingValue(String),
    /// The option's value is not acceptable.
    InvalidValue(String),
    /// The option was given more than once.
    DuplicateOption(String),
    /// `-h`/`--help` was given.
    HelpRequested,
    /// `-V`/`--version` was given.
    VersionRequested,
}

/// A command-line error as plain values.
pub enum CliErrorView {
    MissingSubcommand,
    UnknownSubcommand(Seq<char>),
    MissingArgument,
    UnexpectedArgument(Seq<char>),
    UnknownOption(Seq<char>),
    MissingValue(Seq<char>),
    InvalidValue(Seq<char>),
    DuplicateOption(Seq<char>),
    HelpRequested,
    VersionRequested,
}

impl CliError {
    pub open spec fn view(&self) -> CliErrorView {
        match self {
            CliError::MissingSubcommand => CliErrorView::MissingSubcommand,
            CliError::UnknownSubcommand(s) => CliErrorView::UnknownSubcommand(s@),
            CliError::MissingArgument => CliErrorView::MissingArgument,
            CliError::UnexpectedArgument(s) => CliErrorView::UnexpectedArgument(s@),
            CliError::UnknownOption(s) => CliErrorView::UnknownOption(s@),
            CliError::MissingValue(s) => CliErrorView::MissingValue(s@),
            CliError::InvalidValue(s) => CliErrorView::InvalidValue(s@),
            CliError::DuplicateOption(s) => CliErrorView::DuplicateOption(s@),
            CliError::HelpRequested => CliErrorView::HelpRequested,
            CliError::VersionRequested => CliErrorView::VersionRequested,
        }
    }

    /// The error as the command reports it.
    pub fn message(&self) -> (m: String)
        ensures
            m@ == match self.view() {
                CliErrorView::MissingSubcommand => "a subcommand is required"@,
                CliErrorView::UnknownSubcommand(s) => "unrecognized subcommand '"@ + s + "'"@,
                CliErrorView::MissingArgument => "a required argument was not provided"@,
                CliErrorView::UnexpectedArgument(s) => "unexpected argument '"@ + s + "' found"@,
                CliErrorView::UnknownOption(s) => "unexpected argument '"@ + s + "' found"@,
                CliErrorView::MissingValue(s) => "a value is required for '"@ + s + "' but none was supplied"@,
                CliErrorView::InvalidValue(s) => "invalid value '"@ + s + "'"@,
                CliErrorView::DuplicateOption(s) => "the argument '"@ + s + "' cannot be used multiple times"@,
                CliErrorView::HelpRequested => "help requested"@,
                CliErrorView::VersionRequested => "version requested"@,
            },
    {
        match self {
            CliError::MissingSubcommand => String::from_str("a subcommand is required"),
            CliError::UnknownSubcommand(s) => String::from_str("unrecognized subcommand '").concat(s.as_str()).concat("'"),
            CliError::MissingArgument => String::from_str("a required argument was not provided"),
            CliError::UnexpectedArgument(s) => String::from_str("unexpected argument '").concat(s.as_str()).concat("' found"),
            CliError::UnknownOption(s) => String::from_str("unexpected argument '").concat(s.as_str()).concat("' found"),
            CliError::MissingValue(s) => String::from_str("a value is required for '").concat(s.as_str()).concat("' but none was supplied"),
            CliError::InvalidValue(s) => String::from_str("invalid value '").concat(s.as_str()).concat("'"),
            CliError::DuplicateOption(s) => String::from_str("the argument '").concat(s.as_str()).concat("' cannot be used multiple times"),
            CliError::HelpRequested => String::from_str("help requested"),
            CliError::VersionRequested => String::from_str("version requested"),
        }
    }
}

// ---------------------------------------------------------------------------
// Token scanning
// ---------------------------------------------------------------------------

/// What the options scanned so far have set, and the positional words.
pub struct Scan {
    pub format: Option<OutputFormat>,
    pub profile: Option<Seq<char>>,
    pub verbose: bool,
    pub interactive: bool,
    pub count: Option<u32>,
    pub pos: Seq<Seq<char>>,
}

/// The scan before any token.
pub open spec fn scan_start() -> Scan {
    Scan { format: None, profile: None, verbose: false, interactive: false, count: None, pos: Seq::empty() }
}

/// `u32::from_str`: an optional `+` and one or more digits whose value fits.
pub open spec fn parse_u32(s: Seq<char>) -> Option<u32> {
    match parse_unsigned(s, u32::MAX as nat) {
        Some(n) => Some(n as u32),
        None => None,
    }
}

/// The output format a value names.
pub open spec fn format_named(v: Seq<char>) -> Option<OutputFormat> {
    if v == "human"@ {
        Some(OutputFormat::Human)
    } else if v == "json"@ {
        Some(OutputFormat::Json)
    } else {
        None
    }
}

/// Apply the short flags of a cluster such as `-vi`; `tok` is the whole
/// token, for the error.
pub open spec fn short_flags(cs: Seq<char>, st: Scan, tok: Seq<char>) -> Result<Scan, CliErrorView>
    decreases cs.len(),
{
    if cs.len() == 0 {
        Ok(st)
    } else if cs[0] == 'h' {
        Err(CliErrorView::HelpRequested)
    } else if cs[0] == 'V' {
        Err(CliErrorView::VersionRequested)
    } else if cs[0] == 'v' {
        if st.verbose {
            Err(CliErrorView::DuplicateOption("verbose"@))
        } else {
            short_flags(cs.drop_first(), Scan { verbose: true, ..st }, tok)
        }
    } else if cs[0] == 'i' {
        if st.interactive {
            Err(CliErrorView::DuplicateOption("interactive"@))
        } else {
            short_flags(cs.drop_first(), Scan { interactive: true, ..st }, tok)
        }
    } else {
        Err(CliErrorView::UnknownOption(tok))
    }
}

/// Whether a token is a long option (`--name` or `--name=value`).
pub open spec fn is_long(t: Seq<char>) -> bool {
    t.len() > 2 && t[0] == '-' && t[1] == '-'
}

/// Whether a token is a cluster of short flags.
pub open spec fn is_short(t: Seq<char>) -> bool {
    t.len() >= 2 && t[0] == '-' && t[1] != '-'
}

/// The name part of a long option: what follows `--`, up to the first `=`.
pub open spec fn long_name(t: Seq<char>) -> Seq<char> {
    t.skip(2).take(find_char(t.skip(2), '='))
}

/// The inline value of a long option, after its first `=`.
pub open spec fn long_inline(t: Seq<char>) -> Option<Seq<char>> {
    let body = t.skip(2);
    let k = find_char(body, '=');
    if k < body.len() {
        Some(body.skip(k + 1))
    } else {
        None
    }
}

/// The effect of a long option taking a value `v`.
pub open spec fn with_value(name: Seq<char>, v: Seq<char>, st: Scan) -> Result<Scan, CliErrorView> {
    if name == "format"@ {
        if st.format is Some {
            Err(CliErrorView::DuplicateOption(name))
        } else {
            match format_named(v) {
                Some(f) => Ok(Scan { format: Some(f), ..st }),
                None => Err(CliErrorView::InvalidValue(v)),
            }
        }
    } else if name == "profile"@ {
        if st.profile is Some {
            Err(CliErrorView::DuplicateOption(name))
        } else {
            Ok(Scan { profile: Some(v), ..st })
        }
    } else {
        if st.count is Some {
            Err(CliErrorView::DuplicateOption(name))
        } else {
            match parse_u32(v) {
                Some(n) => Ok(Scan { count: Some(n), ..st }),
                None => Err(CliErrorView::InvalidValue(v)),
            }
        }
    }
}

/// Whether a long option takes a value.
pub open spec fn takes_value(name: Seq<char>) -> bool {
    name == "format"@ || name == "profile"@ || name == "count"@
}

/// Scan the tokens left to right. After `--` every token is positional.
pub open spec fn scan(toks: Seq<Seq<char>>, st: Scan, raw: bool) -> Result<Scan, CliErrorView>
    decreases toks.len(),
{
    if toks.len() == 0 {
        Ok(st)
    } else {
        let t = toks[0];
        let rest = toks.drop_first();
        if raw || !(t == "--"@ || is_long(t) || is_short(t)) {
            scan(rest, Scan { pos: st.pos.push(t), ..st }, raw)
        } else if t == "--"@ {
            scan(rest, st, true)
        } else if is_short(t) {
            match short_flags(t.drop_first(), st, t) {
                Ok(st2) => scan(rest, st2, false),
                Err(e) => Err(e),
            }
        } else {
            let name = long_name(t);
            if name == "help"@ {
                Err(CliErrorView::HelpRequested)
            } else if name == "version"@ {
                Err(CliErrorView::VersionRequested)
            } else if (name == "verbose"@ || name == "interactive"@) && long_inline(t) is None {
                if name == "verbose"@ {
                    if st.verbose {
                        Err(CliErrorView::DuplicateOption(name))
                    } else {
                        scan(rest, Scan { verbose: true, ..st }, false)
                    }
                } else {
                    if st.interactive {
                        Err(CliErrorView::DuplicateOption(name))
                    } else {
                        scan(rest, Scan { interactive: true, ..st }, false)
                    }
                }
            } else if takes_value(name) {
                match long_inline(t) {
                    Some(v) => match with_value(name, v, st) {
                        Ok(st2) => scan(rest, st2, false),
                        Err(e) => Err(e),
                    },
                    None => if rest.len() == 0 {
                        Err(CliErrorView::MissingValue(t))
                    } else {
                        match with_value(name, rest[0], st) {
                            Ok(st2) => scan(rest.drop_first(), st2, false),
                            Err(e) => Err(e),
                        }
                    },
                }
            } else {
                Err(CliErrorView::UnknownOption(t))
            }
        }
    }
}

/// A parsed command line as plain values: format, profile, verbose, the
/// command's kind and text arguments, and its interactive flag and count.
pub struct CliView {
    pub format: OutputFormat,
    pub profile: Option<Seq<char>>,
    pub verbose: bool,
    pub kind: CommandKind,
    pub args: Seq<Seq<char>>,
    pub interactive: bool,
    pub count: u32,
}

/// The command and its arguments named by the positional words.
pub open spec fn resolve(pos: Seq<Seq<char>>) -> Result<(CommandKind, Seq<Seq<char>>), CliErrorView> {
    if pos.len() == 0 {
        Err(CliErrorView::MissingSubcommand)
    } else if is_group(pos[0]) {
        if pos.len() < 2 {
            Err(CliErrorView::MissingSubcommand)
        } else {
            match group_command(pos[0], pos[1]) {
                Some((k, _)) => Ok((k, pos.skip(2))),
                None => Err(CliErrorView::UnknownSubcommand(pos[1])),
            }
        }
    } else if pos[0] == "tui"@ {
        Ok((CommandKind::Tui, pos.skip(1)))
    } else {
        match leaf_command(pos[0]) {
            Some((k, _)) => Ok((k, pos.skip(1))),
            None => Err(CliErrorView::UnknownSubcommand(pos[0])),
        }
    }
}

/// The tokens after the program name.
pub open spec fn tokens(args: Seq<Seq<char>>) -> Seq<Seq<char>> {
    if args.len() == 0 {
        args
    } else {
        args.drop_first()
    }
}

/// The meaning of a command line (the program name first, then the tokens).
pub open spec fn parse_spec(args: Seq<Seq<char>>) -> Result<CliView, CliErrorView> {
    match scan(tokens(args), scan_start(), false) {
        Err(e) => Err(e),
        Ok(st) => match resolve(st.pos) {
            Err(e) => Err(e),
            Ok((kind, rest)) => {
                let max = if kind == CommandKind::Tui {
                    1
                } else {
                    arity(kind)
                };
                let min = if kind == CommandKind::Tui {
                    0
                } else {
                    arity(kind)
                };
                if rest.len() < min {
                    Err(CliErrorView::MissingArgument)
                } else if rest.len() > max {
                    Err(CliErrorView::UnexpectedArgument(rest[max as int]))
                } else if st.interactive && kind != CommandKind::Run {
                    Err(CliErrorView::UnknownOption("--interactive"@))
                } else if st.count is Some && kind != CommandKind::CreatureSpawn {
                    Err(CliErrorView::UnknownOption("--count"@))
                } else {
                    Ok(
                        CliView {
                            format: match st.format {
                                Some(f) => f,
                                None => OutputFormat::Human,
                            },
                            profile: st.profile,
                            verbose: st.verbose,
                            kind,
                            args: rest,
                            interactive: st.interactive,
                            count: match st.count {
                                Some(n) => n,
                                None => 1,
                            },
                        },
                    )
                }
            },
        },
    }
}

#[derive(Debug)]
pub enum DaemonCmd {
    Start,
    Stop,
}

#[derive(Debug)]
pub enum SessionCmd {
    List,
    Resume { session_id: String },
    Fork { session_id: String },
}

#[derive(Debug)]
pub enum CheckpointCmd {
    Create,
    List,
}

#[derive(Debug)]
pub enum CreatureCmd {
    List,
    Spawn { name: String, count: u32 },
    Inspect { instance: String },
    Stop { instance: String },
    Promote { instance: String },
    Leash { instance: String },
}

#[derive(Debug)]
pub enum ToolCmd {
    List,
    Inspect { name: String },
    Healthcheck { name: String },
    Test { name: String },
    Disable { name: String },
}

#[derive(Debug)]
pub enum WorldCmd {
    List,
    Spawn { kind: String },
}

#[derive(Debug)]
pub enum BrowserCmd {
    Open { target: String },
}

#[derive(Debug)]
pub enum PhoneCmd {
    Boot { device: String },
}

#[derive(Debug)]
pub enum ApproveCmd {
    Next,
    Plan,
}

#[derive(Debug)]
pub enum PolicyCmd {
    Show,
    Edit,
}

#[derive(Debug)]
pub enum AutonomyCmd {
    SetLevel { level: String },
}

#[derive(Debug)]
pub enum TraceCmd {
    Live,
    Show { task_id: String },
    Export { session_id: String },
}

#[derive(Debug)]
pub enum EvalCmd {
    Run { name: String },
    Compare { checkpoint_a: String, checkpoint_b: String },
}

#[derive(Debug)]
pub enum MemoryCmd {
    List,
    Show { episode_id: String },
}

#[derive(Debug)]
pub enum SkillCmd {
    List,
    Inspect { name: String },
    Run { name: String },
}

/// The commands of the command line.
#[derive(Debug)]
pub enum Command {
    Init,
    Up,
    Down,
    Doctor,
    Status,
    Daemon { cmd: DaemonCmd },
    Run { objective: String, interactive: bool },
    Plan { objective: String },
    Swarm { objective: String },
    Pack { name: String },
    Tui { objective: Option<String> },
    Session { cmd: SessionCmd },
    Checkpoint { cmd: CheckpointCmd },
    Rollback { checkpoint_id: String },
    Replay { session_id: String },
    Creature { cmd: CreatureCmd },
    Tool { cmd: ToolCmd },
    World { cmd: WorldCmd },
    Browser { cmd: BrowserCmd },
    Phone { cmd: PhoneCmd },
    Approve { cmd: ApproveCmd },
    Deny { call_id: String },
    Policy { cmd: PolicyCmd },
    Autonomy { cmd: AutonomyCmd },
    Leash { target: String },
    Trace { cmd: TraceCmd },
    Eval { cmd: EvalCmd },
    Memory { cmd: MemoryCmd },
    Skill { cmd: SkillCmd },
    Schedule { frequency: String, objective: String },
    Watch { objective: String },
}

/// The command a command line names, without its arguments.
#[derive(Debug, Clone, Copy, PartialEq, Eq, Structural)]
pub enum CommandKind {
    Init,
    Up,
    Down,
    Doctor,
    Status,
    DaemonStart,
    DaemonStop,
    Run,
    Plan,
    Swarm,
    Pack,
    Tui,
    SessionList,
    SessionResume,
    SessionFork,
    CheckpointCreate,
    CheckpointList,
    Rollback,
    Replay,
    CreatureList,
    CreatureSpawn,
    CreatureInspect,
    CreatureStop,
    CreaturePromote,
    CreatureLeash,
    ToolList,
    ToolInspect,
    ToolHealthcheck,
    ToolTest,
    ToolDisable,
    WorldList,
    WorldSpawn,
    BrowserOpen,
    PhoneBoot,
    ApproveNext,
    ApprovePlan,
    Deny,
    PolicyShow,
    PolicyEdit,
    AutonomySet,
    Leash,
    TraceLive,
    TraceShow,
    TraceExport,
    EvalRun,
    EvalCompare,
    MemoryList,
    MemoryShow,
    SkillList,
    SkillInspect,
    SkillRun,
    Schedule,
    Watch,
}

impl Command {
    /// The command's kind.
    pub open spec fn kind(&self) -> CommandKind {
        match self {
            Command::Init => CommandKind::Init,
            Command::Up => CommandKind::Up,
            Command::Down => CommandKind::Down,
            Command::Doctor => CommandKind::Doctor,
            Command::Status => CommandKind::Status,
            Command::Daemon { cmd } => match cmd {
                DaemonCmd::Start  => CommandKind::DaemonStart,
                DaemonCmd::Stop  => CommandKind::DaemonStop,
            },
            Command::Run { .. } => CommandKind::Run,
            Command::Plan { .. } => CommandKind::Plan,
            Command::Swarm { .. } => CommandKind::Swarm,
            Command::Pack { .. } => CommandKind::Pack,
            Command::Tui { .. } => CommandKind::Tui,
            Command::Session { cmd } => match cmd {
                SessionCmd::List  => CommandKind::SessionList,
                SessionCmd::Resume { .. } => CommandKind::SessionResume,
                SessionCmd::Fork { .. } => CommandKind::SessionFork,
            },
            Command::Checkpoint { cmd } => match cmd {
                CheckpointCmd::Create  => CommandKind::CheckpointCreate,
                CheckpointCmd::List  => CommandKind::CheckpointList,
            },
            Command::Rollback { .. } => CommandKind::Rollback,
            Command::Replay { .. } => CommandKind::Replay,
            Command::Creature { cmd } => match cmd {
                CreatureCmd::List  => CommandKind::CreatureList,
                CreatureCmd::Spawn { .. } => CommandKind::CreatureSpawn,
                CreatureCmd::Inspect { .. } => CommandKind::CreatureInspect,
                CreatureCmd::Stop { .. } => CommandKind::CreatureStop,
                CreatureCmd::Promote { .. } => CommandKind::CreaturePromote,
                CreatureCmd::Leash { .. } => CommandKind::CreatureLeash,
            },
            Command::Tool { cmd } => match cmd {
                ToolCmd::List  => CommandKind::ToolList,
                ToolCmd::Inspect { .. } => CommandKind::ToolInspect,
                ToolCmd::Healthcheck { .. } => CommandKind::ToolHealthcheck,
                ToolCmd::Test { .. } => CommandKind::ToolTest,
                ToolCmd::Disable { .. } => CommandKind::ToolDisable,
            },
            Command::World { cmd } => match cmd {
                WorldCmd::List  => CommandKind::WorldList,
                WorldCmd::Spawn { .. } => CommandKind::WorldSpawn,
            },
            Command::Browser { cmd } => match cmd {
                BrowserCmd::Open { .. } => CommandKind::BrowserOpen,
            },
            Command::Phone { cmd } => match cmd {
                PhoneCmd::Boot { .. } => CommandKind::PhoneBoot,
            },
            Command::Approve { cmd } => match cmd {
                ApproveCmd::Next  => CommandKind::ApproveNext,
                ApproveCmd::Plan  => CommandKind::ApprovePlan,
            },
            Command::Deny { .. } => CommandKind::Deny,
            Command::Policy { cmd } => match cmd {
                PolicyCmd::Show  => CommandKind::PolicyShow,
                PolicyCmd::Edit  => CommandKind::PolicyEdit,
            },
            Command::Autonomy { cmd } => match cmd {
                AutonomyCmd::SetLevel { .. } => CommandKind::AutonomySet,
            },
            Command::Leash { .. } => CommandKind::Leash,
            Command::Trace { cmd } => match cmd {
                TraceCmd::Live  => CommandKind::TraceLive,
                TraceCmd::Show { .. } => CommandKind::TraceShow,
                TraceCmd::Export { .. } => CommandKind::TraceExport,
            },
            Command::Eval { cmd } => match cmd {
                EvalCmd::Run { .. } => CommandKind::EvalRun,
                EvalCmd::Compare { .. } => CommandKind::EvalCompare,
            },
            Command::Memory { cmd } => match cmd {
                MemoryCmd::List  => CommandKind::MemoryList,
                MemoryCmd::Show { .. } => CommandKind::MemoryShow,
            },
            Command::Skill { cmd } => match cmd {
                SkillCmd::List  => CommandKind::SkillList,
                SkillCmd::Inspect { .. } => CommandKind::SkillInspect,
                SkillCmd::Run { .. } => CommandKind::SkillRun,
            },
            Command::Schedule { .. } => CommandKind::Schedule,
            Command::Watch { .. } => CommandKind::Watch,
        }
    }

    /// The command's text arguments, in order.
    pub open spec fn args(&self) -> Seq<Seq<char>> {
        match self {
            Command::Init => Seq::empty(),
            Command::Up => Seq::empty(),
            Command::Down => Seq::empty(),
            Command::Doctor => Seq::empty(),
            Command::Status => Seq::empty(),
            Command::Daemon { cmd } => match cmd {
                DaemonCmd::Start  => Seq::empty(),
                DaemonCmd::Stop  => Seq::empty(),
            },
            Command::Run { objective, .. } => seq![objective@],
            Command::Plan { objective, .. } => seq![objective@],
            Command::Swarm { objective, .. } => seq![objective@],
            Command::Pack { name, .. } => seq![name@],
            Command::Tui { objective } => match objective {
                Some(o) => seq![o@],
                None => Seq::empty(),
            },
            Command::Session { cmd } => match cmd {
                SessionCmd::List  => Seq::empty(),
                SessionCmd::Resume { session_id, .. } => seq![session_id@],
                SessionCmd::Fork { session_id, .. } => seq![session_id@],
            },
            Command::Checkpoint { cmd } => match cmd {
                CheckpointCmd::Create  => Seq::empty(),
                CheckpointCmd::List  => Seq::empty(),
            },
            Command::Rollback { checkpoint_id, .. } => seq![checkpoint_id@],
            Command::Replay { session_id, .. } => seq![session_id@],
            Command::Creature { cmd } => match cmd {
                CreatureCmd::List  => Seq::empty(),
                CreatureCmd::Spawn { name, .. } => seq![name@],
                CreatureCmd::Inspect { instance, .. } => seq![instance@],
                CreatureCmd::Stop { instance, .. } => seq![instance@],
                CreatureCmd::Promote { instance, .. } => seq![instance@],
                CreatureCmd::Leash { instance, .. } => seq![instance@],
            },
            Command::Tool { cmd } => match cmd {
                ToolCmd::List  => Seq::empty(),
                ToolCmd::Inspect { name, .. } => seq![name@],
                ToolCmd::Healthcheck { name, .. } => seq![name@],
                ToolCmd::Test { name, .. } => seq![name@],
                ToolCmd::Disable { name, .. } => seq![name@],
            },
            Command::World { cmd } => match cmd {
                WorldCmd::List  => Seq::empty(),
                WorldCmd::Spawn { kind, .. } => seq![kind@],
            },
            Command::Browser { cmd } => match cmd {
                BrowserCmd::Open { target, .. } => seq![target@],
            },
            Command::Phone { cmd } => match cmd {
                PhoneCmd::Boot { device, .. } => seq![device@],
            },
            Command::Approve { cmd } => match cmd {
                ApproveCmd::Next  => Seq::empty(),
                ApproveCmd::Plan  => Seq::empty(),
            },
            Command::Deny { call_id, .. } => seq![call_id@],
            Command::Policy { cmd } => match cmd {
                PolicyCmd::Show  => Seq::empty(),
                PolicyCmd::Edit  => Seq::empty(),
            },
            Command::Autonomy { cmd } => match cmd {
                AutonomyCmd::SetLevel { level, .. } => seq![level@],
            },
            Command::Leash { target, .. } => seq![target@],
            Command::Trace { cmd } => match cmd {
                TraceCmd::Live  => Seq::empty(),
                TraceCmd::Show { task_id, .. } => seq![task_id@],
                TraceCmd::Export { session_id, .. } => seq![session_id@],
            },
            Command::Eval { cmd } => match cmd {
                EvalCmd::Run { name, .. } => seq![name@],
                EvalCmd::Compare { checkpoint_a, checkpoint_b, .. } => seq![checkpoint_a@, checkpoint_b@],
            },
            Command::Memory { cmd } => match cmd {
                MemoryCmd::List  => Seq::empty(),
                MemoryCmd::Show { episode_id, .. } => seq![episode_id@],
            },
            Command::Skill { cmd } => match cmd {
                SkillCmd::List  => Seq::empty(),
                SkillCmd::Inspect { name, .. } => seq![name@],
                SkillCmd::Run { name, .. } => seq![name@],
            },
            Command::Schedule { frequency, objective, .. } => seq![frequency@, objective@],
            Command::Watch { objective, .. } => seq![objective@],
        }
    }
}

/// The command named by a leaf word, with its number of arguments.
pub open spec fn leaf_command(name: Seq<char>) -> Option<(CommandKind, nat)> {
    if name == "init"@ {
        Some((CommandKind::Init, 0))
    } else if name == "up"@ {
        Some((CommandKind::Up, 0))
    } else if name == "down"@ {
        Some((CommandKind::Down, 0))
    } else if name == "doctor"@ {
        Some((CommandKind::Doctor, 0))
    } else if name == "status"@ {
        Some((CommandKind::Status, 0))
    } else if name == "run"@ {
        Some((CommandKind::Run, 1))
    } else if name == "plan"@ {
        Some((CommandKind::Plan, 1))
    } else if name == "swarm"@ {
        Some((CommandKind::Swarm, 1))
    } else if name == "pack"@ {
        Some((CommandKind::Pack, 1))
    } else if name == "rollback"@ {
        Some((CommandKind::Rollback, 1))
    } else if name == "replay"@ {
        Some((CommandKind::Replay, 1))
    } else if name == "deny"@ {
        Some((CommandKind::Deny, 1))
    } else if name == "leash"@ {
        Some((CommandKind::Leash, 1))
    } else if name == "schedule"@ {
        Some((CommandKind::Schedule, 2))
    } else if name == "watch"@ {
        Some((CommandKind::Watch, 1))
    } else {
        None
    }
}

/// Whether a word names a group of subcommands.
pub open spec fn is_group(name: Seq<char>) -> bool {
    name == "daemon"@ || name == "session"@ || name == "checkpoint"@ || name == "creature"@ || name == "tool"@ || name == "world"@ || name == "browser"@ || name == "phone"@ || name == "approve"@ || name == "policy"@ || name == "autonomy"@ || name == "trace"@ || name == "eval"@ || name == "memory"@ || name == "skill"@
}

/// The command named by a group word and a subcommand word, with its
/// number of arguments.
pub open spec fn group_command(group: Seq<char>, sub: Seq<char>) -> Option<(CommandKind, nat)> {
    if group == "daemon"@ && sub == "start"@ {
        Some((CommandKind::DaemonStart, 0))
    } else if group == "daemon"@ && sub == "stop"@ {
        Some((CommandKind::DaemonStop, 0))
    } else if group == "session"@ && sub == "list"@ {
        Some((CommandKind::SessionList, 0))
    } else if group == "session"@ && sub == "resume"@ {
        Some((CommandKind::SessionResume, 1))
    } else if group == "session"@ && sub == "fork"@ {
        Some((CommandKind::SessionFork, 1))
    } else if group == "checkpoint"@ && sub == "create"@ {
        Some((CommandKind::CheckpointCreate, 0))
    } else if group == "checkpoint"@ && sub == "list"@ {
        Some((CommandKind::CheckpointList, 0))
    } else if group == "creature"@ && sub == "list"@ {
        Some((CommandKind::CreatureList, 0))
    } else if group == "creature"@ && sub == "spawn"@ {
        Some((CommandKind::CreatureSpawn, 1))
    } else if group == "creature"@ && sub == "inspect"@ {
        Some((CommandKind::CreatureInspect, 1))
    } else if group == "creature"@ && sub == "stop"@ {
        Some((CommandKind::CreatureStop, 1))
    } else if group == "creature"@ && sub == "promote"@ {
        Some((CommandKind::CreaturePromote, 1))
    } else if group == "creature"@ && sub == "leash"@ {
        Some((CommandKind::CreatureLeash, 1))
    } else if group == "tool"@ && sub == "list"@ {
        Some((CommandKind::ToolList, 0))
    } else if group == "tool"@ && sub == "inspect"@ {
        Some((CommandKind::ToolInspect, 1))
    } else if group == "tool"@ && sub == "healthcheck"@ {
        Some((CommandKind::ToolHealthcheck, 1))
    } else if group == "tool"@ && sub == "test"@ {
        Some((CommandKind::ToolTest, 1))
    } else if group == "tool"@ && sub == "disable"@ {
        Some((CommandKind::ToolDisable, 1))
    } else if group == "world"@ && sub == "list"@ {
        Some((CommandKind::WorldList, 0))
    } else if group == "world"@ && sub == "spawn"@ {
        Some((CommandKind::WorldSpawn, 1))
    } else if group == "browser"@ && sub == "open"@ {
        Some((CommandKind::BrowserOpen, 1))
    } else if group == "phone"@ && sub == "boot"@ {
        Some((CommandKind::PhoneBoot, 1))
    } else if group == "approve"@ && sub == "next"@ {
        Some((CommandKind::ApproveNext, 0))
    } else if group == "approve"@ && sub == "plan"@ {
        Some((CommandKind::ApprovePlan, 0))
    } else if group == "policy"@ && sub == "show"@ {
        Some((CommandKind::PolicyShow, 0))
    } else if group == "policy"@ && sub == "edit"@ {
        Some((CommandKind::PolicyEdit, 0))
    } else if group == "autonomy"@ && sub == "set"@ {
        Some((CommandKind::AutonomySet, 1))
    } else if group == "trace"@ && sub == "live"@ {
        Some((CommandKind::TraceLive, 0))
    } else if group == "trace"@ && sub == "show"@ {
        Some((CommandKind::TraceShow, 1))
    } else if group == "trace"@ && sub == "export"@ {
        Some((CommandKind::TraceExport, 1))
    } else if group == "eval"@ && sub == "run"@ {
        Some((CommandKind::EvalRun, 1))
    } else if group == "eval"@ && sub == "compare"@ {
        Some((CommandKind::EvalCompare, 2))
    } else if group == "memory"@ && sub == "list"@ {
        Some((CommandKind::MemoryList, 0))
    } else if group == "memory"@ && sub == "show"@ {
        Some((CommandKind::MemoryShow, 1))
    } else if group == "skill"@ && sub == "list"@ {
        Some((CommandKind::SkillList, 0))
    } else if group == "skill"@ && sub == "inspect"@ {
        Some((CommandKind::SkillInspect, 1))
    } else if group == "skill"@ && sub == "run"@ {
        Some((CommandKind::SkillRun, 1))
    } else {
        None
    }
}

fn word_is(w: &Vec<char>, lit: &str) -> (r: bool)
    ensures
        r == (w@ == lit@),
{
    same_chars(w, &chars_of(lit))
}

fn find_leaf(name: &Vec<char>) -> (r: Option<(CommandKind, usize)>)
    ensures
        match leaf_command(name@) {
            Some((k, n)) => r == Some((k, n as usize)),
            None => r is None,
        },
{
    if word_is(name, "init") {
        return Some((CommandKind::Init, 0));
    }
    if word_is(name, "up") {
        return Some((CommandKind::Up, 0));
    }
    if word_is(name, "down") {
        return Some((CommandKind::Down, 0));
    }
    if word_is(name, "doctor") {
        return Some((CommandKind::Doctor, 0));
    }
    if word_is(name, "status") {
        return Some((CommandKind::Status, 0));
    }
    if word_is(name, "run") {
        return Some((CommandKind::Run, 1));
    }
    if word_is(name, "plan") {
        return Some((CommandKind::Plan, 1));
    }
    if word_is(name, "swarm") {
        return Some((CommandKind::Swarm, 1));
    }
    if word_is(name, "pack") {
        return Some((CommandKind::Pack, 1));
    }
    if word_is(name, "rollback") {
        return Some((CommandKind::Rollback, 1));
    }
    if word_is(name, "replay") {
        return Some((CommandKind::Replay, 1));
    }
    if word_is(name, "deny") {
        return Some((CommandKind::Deny, 1));
    }
    if word_is(name, "leash") {
        return Some((CommandKind::Leash, 1));
    }
    if word_is(name, "schedule") {
        return Some((CommandKind::Schedule, 2));
    }
    if word_is(name, "watch") {
        return Some((CommandKind::Watch, 1));
    }
    None
}

fn find_group(name: &Vec<char>) -> (r: bool)
    ensures
        r == is_group(name@),
{
    word_is(name, "daemon") || word_is(name, "session") || word_is(name, "checkpoint") || word_is(name, "creature") || word_is(name, "tool") || word_is(name, "world") || word_is(name, "browser") || word_is(name, "phone") || word_is(name, "approve") || word_is(name, "policy") || word_is(name, "autonomy") || word_is(name, "trace") || word_is(name, "eval") || word_is(name, "memory") || word_is(name, "skill")
}

fn find_sub(group: &Vec<char>, sub: &Vec<char>) -> (r: Option<(CommandKind, usize)>)
    ensures
        match group_command(group@, sub@) {
            Some((k, n)) => r == Some((k, n as usize)),
            None => r is None,
        },
{
    if word_is(group, "daemon") && word_is(sub, "start") {
        return Some((CommandKind::DaemonStart, 0));
    }
    if word_is(group, "daemon") && word_is(sub, "stop") {
        return Some((CommandKind::DaemonStop, 0));
    }
    if word_is(group, "session") && word_is(sub, "list") {
        return Some((CommandKind::SessionList, 0));
    }
    if word_is(group, "session") && word_is(sub, "resume") {
        return Some((CommandKind::SessionResume, 1));
    }
    if word_is(group, "session") && word_is(sub, "fork") {
        return Some((CommandKind::SessionFork, 1));
    }
    if word_is(group, "checkpoint") && word_is(sub, "create") {
        return Some((CommandKind::CheckpointCreate, 0));
    }
    if word_is(group, "checkpoint") && word_is(sub, "list") {
        return Some((CommandKind::CheckpointList, 0));
    }
    if word_is(group, "creature") && word_is(sub, "list") {
        return Some((CommandKind::CreatureList, 0));
    }
    if word_is(group, "creature") && word_is(sub, "spawn") {
        return Some((CommandKind::CreatureSpawn, 1));
    }
    if word_is(group, "creature") && word_is(sub, "inspect") {
        return Some((CommandKind::CreatureInspect, 1));
    }
    if word_is(group, "creature") && word_is(sub, "stop") {
        return Some((CommandKind::CreatureStop, 1));
    }
    if word_is(group, "creature") && word_is(sub, "promote") {
        return Some((CommandKind::CreaturePromote, 1));
    }
    if word_is(group, "creature") && word_is(sub, "leash") {
        return Some((CommandKind::CreatureLeash, 1));
    }
    if word_is(group, "tool") && word_is(sub, "list") {
        return Some((CommandKind::ToolList, 0));
    }
    if word_is(group, "tool") && word_is(sub, "inspect") {
        return Some((CommandKind::ToolInspect, 1));
    }
    if word_is(group, "tool") && word_is(sub, "healthcheck") {
        return Some((CommandKind::ToolHealthcheck, 1));
    }
    if word_is(group, "tool") && word_is(sub, "test") {
        return Some((CommandKind::ToolTest, 1));
    }
    if word_is(group, "tool") && word_is(sub, "disable") {
        return Some((CommandKind::ToolDisable, 1));
    }
    if word_is(group, "world") && word_is(sub, "list") {
        return Some((CommandKind::WorldList, 0));
    }
    if word_is(group, "world") && word_is(sub, "spawn") {
        return Some((CommandKind::WorldSpawn, 1));
    }
    if word_is(group, "browser") && word_is(sub, "open") {
        return Some((CommandKind::BrowserOpen, 1));
    }
    if word_is(group, "phone") && word_is(sub, "boot") {
        return Some((CommandKind::PhoneBoot, 1));
    }
    if word_is(group, "approve") && word_is(sub, "next") {
        return Some((CommandKind::ApproveNext, 0));
    }
    if word_is(group, "approve") && word_is(sub, "plan") {
        return Some((CommandKind::ApprovePlan, 0));
    }
    if word_is(group, "policy") && word_is(sub, "show") {
        return Some((CommandKind::PolicyShow, 0));
    }
    if word_is(group, "policy") && word_is(sub, "edit") {
        return Some((CommandKind::PolicyEdit, 0));
    }
    if word_is(group, "autonomy") && word_is(sub, "set") {
        return Some((CommandKind::AutonomySet, 1));
    }
    if word_is(group, "trace") && word_is(sub, "live") {
        return Some((CommandKind::TraceLive, 0));
    }
    if word_is(group, "trace") && word_is(sub, "show") {
        return Some((CommandKind::TraceShow, 1));
    }
    if word_is(group, "trace") && word_is(sub, "export") {
        return Some((CommandKind::TraceExport, 1));
    }
    if word_is(group, "eval") && word_is(sub, "run") {
        return Some((CommandKind::EvalRun, 1));
    }
    if word_is(group, "eval") && word_is(sub, "compare") {
        return Some((CommandKind::EvalCompare, 2));
    }
    if word_is(group, "memory") && word_is(sub, "list") {
        return Some((CommandKind::MemoryList, 0));
    }
    if word_is(group, "memory") && word_is(sub, "show") {
        return Some((CommandKind::MemoryShow, 1));
    }
    if word_is(group, "skill") && word_is(sub, "list") {
        return Some((CommandKind::SkillList, 0));
    }
    if word_is(group, "skill") && word_is(sub, "inspect") {
        return Some((CommandKind::SkillInspect, 1));
    }
    if word_is(group, "skill") && word_is(sub, "run") {
        return Some((CommandKind::SkillRun, 1));
    }
    None
}

fn build_command(kind: CommandKind, args: Vec<String>, interactive: bool, count: u32) -> (c: Command)
    requires
        arg_count_ok(kind, args@.len()),
    ensures
        c.kind() == kind,
        c.args() == args@.map_values(|s: String| s@),
        c.interactive_flag() == (kind == CommandKind::Run && interactive),
        c.spawn_count() == (if kind == CommandKind::CreatureSpawn { count } else { 1 }),
{
    let mut args = args;
    let ghost av = args@.map_values(|s: String| s@);
    match kind {
        CommandKind::Init => {
            let c = Command::Init;
            assert(c.args() =~= av);
            c
        },
        CommandKind::Up => {
            let c = Command::Up;
            assert(c.args() =~= av);
            c
        },
        CommandKind::Down => {
            let c = Command::Down;
            assert(c.args() =~= av);
            c
        },
        CommandKind::Doctor => {
            let c = Command::Doctor;
            assert(c.args() =~= av);
            c
        },
        CommandKind::Status => {
            let c = Command::Status;
            assert(c.args() =~= av);
            c
        },
        CommandKind::DaemonStart => {
            let c = Command::Daemon { cmd: DaemonCmd::Start };
            assert(c.args() =~= av);
            c
        },
        CommandKind::DaemonStop => {
            let c = Command::Daemon { cmd: DaemonCmd::Stop };
            assert(c.args() =~= av);
            c
        },
        CommandKind::Run => {
            let objective = args.remove(0);
            let c = Command::Run { objective, interactive };
            assert(c.args() =~= av);
            c
        },
        CommandKind::Plan => {
            let objective = args.remove(0);
            let c = Command::Plan { objective };
            assert(c.args() =~= av);
            c
        },
        CommandKind::Swarm => {
            let objective = args.remove(0);
            let c = Command::Swarm { objective };
            assert(c.args() =~= av);
            c
        },
        CommandKind::Pack => {
            let name = args.remove(0);
            let c = Command::Pack { name };
            assert(c.args() =~= av);
            c
        },
        CommandKind::Tui => {
            let objective = if args.len() > 0 {
                Some(args.remove(0))
            } else {
                None
            };
            let c = Command::Tui { objective };
            assert(c.args() =~= av);
            c
        },
        CommandKind::SessionList => {
            let c = Command::Session { cmd: SessionCmd::List };
            assert(c.args() =~= av);
            c
        },
        CommandKind::SessionResume => {
            let session_id = args.remove(0);
            let c = Command::Session { cmd: SessionCmd::Resume { session_id } };
            assert(c.args() =~= av);
            c
        },
        CommandKind::SessionFork => {
            let session_id = args.remove(0);
            let c = Command::Session { cmd: SessionCmd::Fork { session_id } };
            assert(c.args() =~= av);
            c
        },
        CommandKind::CheckpointCreate => {
            let c = Command::Checkpoint { cmd: CheckpointCmd::Create };
            assert(c.args() =~= av);
            c
        },
        CommandKind::CheckpointList => {
            let c = Command::Checkpoint { cmd: CheckpointCmd::List };
            assert(c.args() =~= av);
            c
        },
        CommandKind::Rollback => {
            let checkpoint_id = args.remove(0);
            let c = Command::Rollback { checkpoint_id };
            assert(c.args() =~= av);
            c
        },
        CommandKind::Replay => {
            let session_id = args.remove(0);
            let c = Command::Replay { session_id };
            assert(c.args() =~= av);
            c
        },
        CommandKind::CreatureList => {
            let c = Command::Creature { cmd: CreatureCmd::List };
            assert(c.args() =~= av);
            c
        },
        CommandKind::CreatureSpawn => {
            let name = args.remove(0);
            let c = Command::Creature { cmd: CreatureCmd::Spawn { name, count } };
            assert(c.args() =~= av);
            c
        },
        CommandKind::CreatureInspect => {
            let instance = args.remove(0);
            let c = Command::Creature { cmd: CreatureCmd::Inspect { instance } };
            assert(c.args() =~= av);
            c
        },
        CommandKind::CreatureStop => {
            let instance = args.remove(0);
            let c = Command::Creature { cmd: CreatureCmd::Stop { instance } };
            assert(c.args() =~= av);
            c
        },
        CommandKind::CreaturePromote => {
            let instance = args.remove(0);
            let c = Command::Creature { cmd: CreatureCmd::Promote { instance } };
            assert(c.args() =~= av);
            c
        },
        CommandKind::CreatureLeash => {
            let instance = args.remove(0);
            let c = Command::Creature { cmd: CreatureCmd::Leash { instance } };
            assert(c.args() =~= av);
            c
        },
        CommandKind::ToolList => {
            let c = Command::Tool { cmd: ToolCmd::List };
            assert(c.args() =~= av);
            c
        },
        CommandKind::ToolInspect => {
            let name = args.remove(0);
            let c = Command::Tool { cmd: ToolCmd::Inspect { name } };
            assert(c.args() =~= av);
            c
        },
        CommandKind::ToolHealthcheck => {
            let name = args.remove(0);
            let c = Command::Tool { cmd: ToolCmd::Healthcheck { name } };
            assert(c.args() =~= av);
            c
        },
        CommandKind::ToolTest => {
            let name = args.remove(0);
            let c = Command::Tool { cmd: ToolCmd::Test { name } };
            assert(c.args() =~= av);
            c
        },
        CommandKind::ToolDisable => {
            let name = args.remove(0);
            let c = Command::Tool { cmd: ToolCmd::Disable { name } };
            assert(c.args() =~= av);
            c
        },
        CommandKind::WorldList => {
            let c = Command::World { cmd: WorldCmd::List };
            assert(c.args() =~= av);
            c
        },
        CommandKind::WorldSpawn => {
            let kind = args.remove(0);
            let c = Command::World { cmd: WorldCmd::Spawn { kind } };
            assert(c.args() =~= av);
            c
        },
        CommandKind::BrowserOpen => {
            let target = args.remove(0);
            let c = Command::Browser { cmd: BrowserCmd::Open { target } };
            assert(c.args() =~= av);
            c
        },
        CommandKind::PhoneBoot => {
            let device = args.remove(0);
            let c = Command::Phone { cmd: PhoneCmd::Boot { device } };
            assert(c.args() =~= av);
            c
        },
        CommandKind::ApproveNext => {
            let c = Command::Approve { cmd: ApproveCmd::Next };
            assert(c.args() =~= av);
            c
        },
        CommandKind::ApprovePlan => {
            let c = Command::Approve { cmd: ApproveCmd::Plan };
            assert(c.args() =~= av);
            c
        },
        CommandKind::Deny => {
            let call_id = args.remove(0);
            let c = Command::Deny { call_id };
            assert(c.args() =~= av);
            c
        },
        CommandKind::PolicyShow => {
            let c = Command::Policy { cmd: PolicyCmd::Show };
            assert(c.args() =~= av);
            c
        },
        CommandKind::PolicyEdit => {
            let c = Command::Policy { cmd: PolicyCmd::Edit };
            assert(c.args() =~= av);
            c
        },
        CommandKind::AutonomySet => {
            let level = args.remove(0);
            let c = Command::Autonomy { cmd: AutonomyCmd::SetLevel { level } };
            assert(c.args() =~= av);
            c
        },
        CommandKind::Leash => {
            let target = args.remove(0);
            let c = Command::Leash { target };
            assert(c.args() =~= av);
            c
        },
        CommandKind::TraceLive => {
            let c = Command::Trace { cmd: TraceCmd::Live };
            assert(c.args() =~= av);
            c
        },
        CommandKind::TraceShow => {
            let task_id = args.remove(0);
            let c = Command::Trace { cmd: TraceCmd::Show { task_id } };
            assert(c.args() =~= av);
            c
        },
        CommandKind::TraceExport => {
            let session_id = args.remove(0);
            let c = Command::Trace { cmd: TraceCmd::Export { session_id } };
            assert(c.args() =~= av);
            c
        },
        CommandKind::EvalRun => {
            let name = args.remove(0);
            let c = Command::Eval { cmd: EvalCmd::Run { name } };
            assert(c.args() =~= av);
            c
        },
        CommandKind::EvalCompare => {
            let checkpoint_a = args.remove(0);
            let checkpoint_b = args.remove(0);
            let c = Command::Eval { cmd: EvalCmd::Compare { checkpoint_a, checkpoint_b } };
            assert(c.args() =~= av);
            c
        },
        CommandKind::MemoryList => {
            let c = Command::Memory { cmd: MemoryCmd::List };
            assert(c.args() =~= av);
            c
        },
        CommandKind::MemoryShow => {
            let episode_id = args.remove(0);
            let c = Command::Memory { cmd: MemoryCmd::Show { episode_id } };
            assert(c.args() =~= av);
            c
        },
        CommandKind::SkillList => {
            let c = Command::Skill { cmd: SkillCmd::List };
            assert(c.args() =~= av);
            c
        },
        CommandKind::SkillInspect => {
            let name = args.remove(0);
            let c = Command::Skill { cmd: SkillCmd::Inspect { name } };
            assert(c.args() =~= av);
            c
        },
        CommandKind::SkillRun => {
            let name = args.remove(0);
            let c = Command::Skill { cmd: SkillCmd::Run { name } };
            assert(c.args() =~= av);
            c
        },
        CommandKind::Schedule => {
            let frequency = args.remove(0);
            let objective = args.remove(0);
            let c = Command::Schedule { frequency, objective };
            assert(c.args() =~= av);
            c
        },
        CommandKind::Watch => {
            let objective = args.remove(0);
            let c = Command::Watch { objective };
            assert(c.args() =~= av);
            c
        },
    }
}

/// The number of text arguments a command takes (the interface's own
/// optional objective counts as taken when present).
pub open spec fn arity(kind: CommandKind) -> nat {
    match kind {
        CommandKind::Init => 0,
        CommandKind::Up => 0,
        CommandKind::Down => 0,
        CommandKind::Doctor => 0,
        CommandKind::Status => 0,
        CommandKind::DaemonStart => 0,
        CommandKind::DaemonStop => 0,
        CommandKind::Run => 1,
        CommandKind::Plan => 1,
        CommandKind::Swarm => 1,
        CommandKind::Pack => 1,
        CommandKind::Tui => 0,
        CommandKind::SessionList => 0,
        CommandKind::SessionResume => 1,
        CommandKind::SessionFork => 1,
        CommandKind::CheckpointCreate => 0,
        CommandKind::CheckpointList => 0,
        CommandKind::Rollback => 1,
        CommandKind::Replay => 1,
        CommandKind::CreatureList => 0,
        CommandKind::CreatureSpawn => 1,
        CommandKind::CreatureInspect => 1,
        CommandKind::CreatureStop => 1,
        CommandKind::CreaturePromote => 1,
        CommandKind::CreatureLeash => 1,
        CommandKind::ToolList => 0,
        CommandKind::ToolInspect => 1,
        CommandKind::ToolHealthcheck => 1,
        CommandKind::ToolTest => 1,
        CommandKind::ToolDisable => 1,
        CommandKind::WorldList => 0,
        CommandKind::WorldSpawn => 1,
        CommandKind::BrowserOpen => 1,
        CommandKind::PhoneBoot => 1,
        CommandKind::ApproveNext => 0,
        CommandKind::ApprovePlan => 0,
        CommandKind::Deny => 1,
        CommandKind::PolicyShow => 0,
        CommandKind::PolicyEdit => 0,
        CommandKind::AutonomySet => 1,
        CommandKind::Leash => 1,
        CommandKind::TraceLive => 0,
        CommandKind::TraceShow => 1,
        CommandKind::TraceExport => 1,
        CommandKind::EvalRun => 1,
        CommandKind::EvalCompare => 2,
        CommandKind::MemoryList => 0,
        CommandKind::MemoryShow => 1,
        CommandKind::SkillList => 0,
        CommandKind::SkillInspect => 1,
        CommandKind::SkillRun => 1,
        CommandKind::Schedule => 2,
        CommandKind::Watch => 1,
    }
}

/// Whether a command takes `n` text arguments: exactly its arity, or, for
/// the interface, at most one.
pub open spec fn arg_count_ok(kind: CommandKind, n: nat) -> bool {
    if kind == CommandKind::Tui {
        n <= 1
    } else {
        n == arity(kind)
    }
}
fn arity_of(kind: CommandKind) -> (n: usize)
    ensures
        n == arity(kind),
{
    match kind {
        CommandKind::Init => 0,
        CommandKind::Up => 0,
        CommandKind::Down => 0,
        CommandKind::Doctor => 0,
        CommandKind::Status => 0,
        CommandKind::DaemonStart => 0,
        CommandKind::DaemonStop => 0,
        CommandKind::Run => 1,
        CommandKind::Plan => 1,
        CommandKind::Swarm => 1,
        CommandKind::Pack => 1,
        CommandKind::Tui => 0,
        CommandKind::SessionList => 0,
        CommandKind::SessionResume => 1,
        CommandKind::SessionFork => 1,
        CommandKind::CheckpointCreate => 0,
        CommandKind::CheckpointList => 0,
        CommandKind::Rollback => 1,
        CommandKind::Replay => 1,
        CommandKind::CreatureList => 0,
        CommandKind::CreatureSpawn => 1,
        CommandKind::CreatureInspect => 1,
        CommandKind::CreatureStop => 1,
        CommandKind::CreaturePromote => 1,
        CommandKind::CreatureLeash => 1,
        CommandKind::ToolList => 0,
        CommandKind::ToolInspect => 1,
        CommandKind::ToolHealthcheck => 1,
        CommandKind::ToolTest => 1,
        CommandKind::ToolDisable => 1,
        CommandKind::WorldList => 0,
        CommandKind::WorldSpawn => 1,
        CommandKind::BrowserOpen => 1,
        CommandKind::PhoneBoot => 1,
        CommandKind::ApproveNext => 0,
        CommandKind::ApprovePlan => 0,
        CommandKind::Deny => 1,
        CommandKind::PolicyShow => 0,
        CommandKind::PolicyEdit => 0,
        CommandKind::AutonomySet => 1,
        CommandKind::Leash => 1,
        CommandKind::TraceLive => 0,
        CommandKind::TraceShow => 1,
        CommandKind::TraceExport => 1,
        CommandKind::EvalRun => 1,
        CommandKind::EvalCompare => 2,
        CommandKind::MemoryList => 0,
        CommandKind::MemoryShow => 1,
        CommandKind::SkillList => 0,
        CommandKind::SkillInspect => 1,
        CommandKind::SkillRun => 1,
        CommandKind::Schedule => 2,
        CommandKind::Watch => 1,
    }
}

impl Command {
    /// Whether the command is `run` given `--interactive`.
    pub open spec fn interactive_flag(&self) -> bool {
        match self {
            Command::Run { interactive, .. } => *interactive,
            _ => false,
        }
    }

    /// The instance count of `creature spawn`; 1 for every other command.
    pub open spec fn spawn_count(&self) -> u32 {
        match self {
            Command::Creature { cmd: CreatureCmd::Spawn { count, .. } } => *count,
            _ => 1,
        }
    }
}

impl Cli {
    /// The parsed command line as plain values.
    pub open spec fn view(&self) -> CliView {
        CliView {
            format: self.format,
            profile: match self.profile {
                Some(p) => Some(p@),
                None => None,
            },
            verbose: self.verbose,
            kind: self.command.kind(),
            args: self.command.args(),
            interactive: self.command.interactive_flag(),
            count: self.command.spawn_count(),
        }
    }
}

/// A parse result as plain values.
pub open spec fn cli_result_view(r: &Result<Cli, CliError>) -> Result<CliView, CliErrorView> {
    match r {
        Ok(c) => Ok(c.view()),
        Err(e) => Err(e.view()),
    }
}

/// The character sequences of a list of words.
pub open spec fn words_view(v: Seq<Vec<char>>) -> Seq<Seq<char>> {
    v.map_values(|w: Vec<char>| w@)
}

struct ScanState {
    format: Option<OutputFormat>,
    profile: Option<Vec<char>>,
    verbose: bool,
    interactive: bool,
    count: Option<u32>,
    pos: Vec<Vec<char>>,
}

impl ScanState {
    spec fn view(&self) -> Scan {
        Scan {
            format: self.format,
            profile: match self.profile {
                Some(p) => Some(p@),
                None => None,
            },
            verbose: self.verbose,
            interactive: self.interactive,
            count: self.count,
            pos: words_view(self.pos@),
        }
    }
}

spec fn scan_result(r: &Result<ScanState, CliError>) -> Result<Scan, CliErrorView> {
    match r {
        Ok(s) => Ok(s.view()),
        Err(e) => Err(e.view()),
    }
}

fn copy_chars(v: &Vec<char>) -> (r: Vec<char>)
    ensures
        r@ == v@,
{
    let mut r: Vec<char> = Vec::new();
    let mut i: usize = 0;
    while i < v.len()
        invariant
            i <= v@.len(),
            r@ == v@.subrange(0, i as int),
        decreases v.len() - i,
    {
        r.push(v[i]);
        i = i + 1;
    }
    assert(r@ =~= v@);
    r
}

/// `u32::from_str` on characters.
fn parse_u32_chars(s: &Vec<char>) -> (r: Option<u32>)
    ensures
        r == parse_u32(s@),
{
    match parse_unsigned_chars(s, 0xffff_ffff) {
        Some(n) => Some(n as u32),
        None => None,
    }
}

fn is_long_token(t: &Vec<char>) -> (r: bool)
    ensures
        r == is_long(t@),
{
    t.len() > 2 && t[0] == '-' && t[1] == '-'
}

fn is_short_token(t: &Vec<char>) -> (r: bool)
    ensures
        r == is_short(t@),
{
    t.len() >= 2 && t[0] == '-' && t[1] != '-'
}

/// Split a long option into its name and its inline value.
#[verifier::loop_isolation(false)]
fn split_long(t: &Vec<char>) -> (r: (Vec<char>, Option<Vec<char>>))
    requires
        is_long(t@),
    ensures
        r.0@ == long_name(t@),
        match r.1 {
            Some(v) => long_inline(t@) == Some(v@),
            None => long_inline(t@) is None,
        },
{
    let ghost body = t@.skip(2);
    let mut name: Vec<char> = Vec::new();
    let mut i: usize = 2;
    while i < t.len() && t[i] != '='
        invariant
            2 <= i <= t@.len(),
            name@ == t@.subrange(2, i as int),
            forall|j: int| 2 <= j < i ==> t@[j] != '=',
        decreases t.len() - i,
    {
        name.push(t[i]);
        i = i + 1;
    }
    let ghost k = i - 2;
    proof {
        lemma_find_char(body, '=');
        assert forall|j: int| 0 <= j < k implies body[j] != '=' by {
            assert(body[j] == t@[j + 2]);
        }
        if k < body.len() {
            assert(body[k] == t@[i as int]);
        }
        assert(find_char(body, '=') == k);
        assert(name@ =~= body.take(k));
    }
    if i < t.len() {
        let mut v: Vec<char> = Vec::new();
        let mut j: usize = i + 1;
        while j < t.len()
            invariant
                i < t@.len(),
                i + 1 <= j <= t@.len(),
                v@ == t@.subrange(i + 1, j as int),
            decreases t.len() - j,
        {
            v.push(t[j]);
            j = j + 1;
        }
        proof {
            assert(v@ =~= body.skip(k + 1));
        }
        (name, Some(v))
    } else {
        (name, None)
    }
}

/// Apply a cluster of short flags such as `-vi`.
#[verifier::loop_isolation(false)]
fn apply_short_flags(t: &Vec<char>, st: ScanState) -> (r: Result<ScanState, CliError>)
    requires
        t@.len() >= 1,
    ensures
        scan_result(&r) == short_flags(t@.drop_first(), st.view(), t@),
{
    let ghost goal = short_flags(t@.drop_first(), st.view(), t@);
    let mut st = st;
    let mut i: usize = 1;
    assert(t@.skip(1) =~= t@.drop_first());
    while i < t.len()
        invariant
            1 <= i <= t@.len(),
            short_flags(t@.skip(i as int), st.view(), t@) == goal,
        decreases t.len() - i,
    {
        let c = t[i];
        proof {
            assert(t@.skip(i as int)[0] == c);
            assert(t@.skip(i as int).drop_first() =~= t@.skip(i + 1));
        }
        if c == 'h' {
            return Err(CliError::HelpRequested);
        } else if c == 'V' {
            return Err(CliError::VersionRequested);
        } else if c == 'v' {
            if st.verbose {
                return Err(CliError::DuplicateOption(String::from_str("verbose")));
            }
            st.verbose = true;
        } else if c == 'i' {
            if st.interactive {
                return Err(CliError::DuplicateOption(String::from_str("interactive")));
            }
            st.interactive = true;
        } else {
            return Err(CliError::UnknownOption(string_of(t)));
        }
        i = i + 1;
    }
    assert(t@.skip(i as int) =~= Seq::<char>::empty());
    Ok(st)
}

/// Apply a long option that takes the value `v`.
fn apply_value(name: &Vec<char>, v: &Vec<char>, st: ScanState) -> (r: Result<ScanState, CliError>)
    requires
        takes_value(name@),
    ensures
        scan_result(&r) == with_value(name@, v@, st.view()),
{
    let mut st = st;
    if word_is(name, "format") {
        if st.format.is_some() {
            return Err(CliError::DuplicateOption(string_of(name)));
        }
        if word_is(v, "human") {
            st.format = Some(OutputFormat::Human);
        } else if word_is(v, "json") {
            st.format = Some(OutputFormat::Json);
        } else {
            return Err(CliError::InvalidValue(string_of(v)));
        }
        Ok(st)
    } else if word_is(name, "profile") {
        if st.profile.is_some() {
            return Err(CliError::DuplicateOption(string_of(name)));
        }
        st.profile = Some(copy_chars(v));
        Ok(st)
    } else {
        if st.count.is_some() {
            return Err(CliError::DuplicateOption(string_of(name)));
        }
        match parse_u32_chars(v) {
            Some(n) => {
                st.count = Some(n);
                Ok(st)
            },
            None => Err(CliError::InvalidValue(string_of(v))),
        }
    }
}

/// Scan all tokens, left to right.
#[verifier::loop_isolation(false)]
fn scan_tokens(toks: &Vec<Vec<char>>) -> (r: Result<ScanState, CliError>)
    ensures
        scan_result(&r) == scan(words_view(toks@), scan_start(), false),
{
    let ghost tv = words_view(toks@);
    let ghost goal = scan(tv, scan_start(), false);
    let mut st = ScanState {
        format: None,
        profile: None,
        verbose: false,
        interactive: false,
        count: None,
        pos: Vec::new(),
    };
    assert(st.view() == scan_start()) by {
        assert(words_view(st.pos@) =~= Seq::<Seq<char>>::empty());
    }
    assert(tv.skip(0) =~= tv);
    let mut raw = false;
    let mut i: usize = 0;
    while i < toks.len()
        invariant
            i <= toks@.len(),
            tv == words_view(toks@),
            scan(tv.skip(i as int), st.view(), raw) == goal,
        decreases toks.len() - i,
    {
        let t = &toks[i];
        proof {
            assert(tv.skip(i as int)[0] == t@);
            assert(tv.skip(i as int).drop_first() =~= tv.skip(i + 1));
        }
        let dd = word_is(t, "--");
        let lg = is_long_token(t);
        let sh = is_short_token(t);
        if raw || !(dd || lg || sh) {
            let ghost before = st.view();
            st.pos.push(copy_chars(t));
            proof {
                assert(words_view(st.pos@) =~= before.pos.push(t@));
            }
            i = i + 1;
        } else if dd {
            raw = true;
            i = i + 1;
        } else if sh {
            match apply_short_flags(t, st) {
                Ok(s2) => {
                    st = s2;
                },
                Err(e) => {
                    return Err(e);
                },
            }
            i = i + 1;
        } else {
            let (name, inline) = split_long(t);
            if word_is(&name, "help") {
                return Err(CliError::HelpRequested);
            } else if word_is(&name, "version") {
                return Err(CliError::VersionRequested);
            } else if (word_is(&name, "verbose") || word_is(&name, "interactive")) && inline.is_none() {
                if word_is(&name, "verbose") {
                    if st.verbose {
                        return Err(CliError::DuplicateOption(string_of(&name)));
                    }
                    st.verbose = true;
                } else {
                    if st.interactive {
                        return Err(CliError::DuplicateOption(string_of(&name)));
                    }
                    st.interactive = true;
                }
                i = i + 1;
            } else if word_is(&name, "format") || word_is(&name, "profile") || word_is(&name, "count") {
                match inline {
                    Some(v) => {
                        match apply_value(&name, &v, st) {
                            Ok(s2) => {
                                st = s2;
                            },
                            Err(e) => {
                                return Err(e);
                            },
                        }
                        i = i + 1;
                    },
                    None => {
                        if i + 1 >= toks.len() {
                            return Err(CliError::MissingValue(string_of(t)));
                        }
                        proof {
                            assert(tv.skip(i + 1)[0] == toks@[i + 1]@);
                            assert(tv.skip(i + 1).drop_first() =~= tv.skip(i + 2));
                        }
                        match apply_value(&name, &toks[i + 1], st) {
                            Ok(s2) => {
                                st = s2;
                            },
                            Err(e) => {
                                return Err(e);
                            },
                        }
                        i = i + 2;
                    },
                }
            } else {
                return Err(CliError::UnknownOption(string_of(t)));
            }
        }
    }
    assert(tv.skip(i as int) =~= Seq::<Seq<char>>::empty());
    Ok(st)
}

/// Find the command the positional words name; gives its kind and the number
/// of words its name took.
fn resolve_words(pos: &Vec<Vec<char>>) -> (r: Result<(CommandKind, usize), CliError>)
    ensures
        match resolve(words_view(pos@)) {
            Ok((k, rest)) => r matches Ok((k2, used)) && k2 == k && used <= pos@.len()
                && rest == words_view(pos@).skip(used as int),
            Err(e) => r matches Err(x) && x.view() == e,
        },
{
    let ghost pv = words_view(pos@);
    if pos.len() == 0 {
        return Err(CliError::MissingSubcommand);
    }
    proof {
        assert(pv[0] == pos@[0]@);
    }
    if find_group(&pos[0]) {
        if pos.len() < 2 {
            return Err(CliError::MissingSubcommand);
        }
        proof {
            assert(pv[1] == pos@[1]@);
        }
        match find_sub(&pos[0], &pos[1]) {
            Some((k, _)) => Ok((k, 2)),
            None => Err(CliError::UnknownSubcommand(string_of(&pos[1]))),
        }
    } else if word_is(&pos[0], "tui") {
        Ok((CommandKind::Tui, 1))
    } else {
        match find_leaf(&pos[0]) {
            Some((k, _)) => Ok((k, 1)),
            None => Err(CliError::UnknownSubcommand(string_of(&pos[0]))),
        }
    }
}

impl Cli {
    /// Parse a command line: the program name first, then the tokens.
    #[verifier::loop_isolation(false)]
    pub fn try_parse_from(args: &[&str]) -> (r: Result<Cli, CliError>)
        ensures
            cli_result_view(&r) == parse_spec(args@.map_values(|s: &str| s@)),
    {
        let ghost av = args@.map_values(|s: &str| s@);
        let mut toks: Vec<Vec<char>> = Vec::new();
        let mut i: usize = 1;
        while i < args.len()
            invariant
                1 <= i,
                args@.len() >= 1 ==> i <= args@.len(),
                av == args@.map_values(|s: &str| s@),
                args@.len() >= 1 ==> words_view(toks@) == av.subrange(1, i as int),
                args@.len() == 0 ==> toks@.len() == 0,
            decreases args.len() - i,
        {
            let ghost before = words_view(toks@);
            toks.push(chars_of(args[i]));
            proof {
                assert(words_view(toks@) =~= before.push(av[i as int]));
                assert(av.subrange(1, i + 1) =~= av.subrange(1, i as int).push(av[i as int]));
            }
            i = i + 1;
        }
        proof {
            if args@.len() >= 1 {
                assert(av.subrange(1, i as int) =~= tokens(av));
            } else {
                assert(words_view(toks@) =~= tokens(av));
            }
        }
        let st = match scan_tokens(&toks) {
            Ok(s) => s,
            Err(e) => {
                return Err(e);
            },
        };
        let ghost pv = words_view(st.pos@);
        let (kind, used) = match resolve_words(&st.pos) {
            Ok(x) => x,
            Err(e) => {
                return Err(e);
            },
        };
        let n = st.pos.len() - used;
        let is_tui = kind == CommandKind::Tui;
        let max: usize = if is_tui {
            1
        } else {
            arity_of(kind)
        };
        let min: usize = if is_tui {
            0
        } else {
            max
        };
        if n < min {
            return Err(CliError::MissingArgument);
        }
        if n > max {
            proof {
                assert(pv.skip(used as int)[max as int] == st.pos@[used + max]@);
            }
            return Err(CliError::UnexpectedArgument(string_of(&st.pos[used + max])));
        }
        if st.interactive && kind != CommandKind::Run {
            return Err(CliError::UnknownOption(String::from_str("--interactive")));
        }
        if st.count.is_some() && kind != CommandKind::CreatureSpawn {
            return Err(CliError::UnknownOption(String::from_str("--count")));
        }
        let mut rest: Vec<String> = Vec::new();
        let mut j: usize = used;
        while j < st.pos.len()
            invariant
                used <= j <= st.pos@.len(),
                pv == words_view(st.pos@),
                rest@.map_values(|s: String| s@) == pv.subrange(used as int, j as int),
            decreases st.pos.len() - j,
        {
            let ghost before = rest@.map_values(|s: String| s@);
            rest.push(string_of(&st.pos[j]));
            proof {
                assert(rest@.map_values(|s: String| s@) =~= before.push(pv[j as int]));
                assert(pv.subrange(used as int, j + 1) =~= pv.subrange(used as int, j as int).push(
                    pv[j as int],
                ));
            }
            j = j + 1;
        }
        assert(pv.subrange(used as int, j as int) =~= pv.skip(used as int));
        let count: u32 = match st.count {
            Some(c) => c,
            None => 1,
        };
        let command = build_command(kind, rest, st.interactive, count);
        let profile = match &st.profile {
            Some(p) => Some(string_of(p)),
            None => None,
        };
        let format = match st.format {
            Some(f) => f,
            None => OutputFormat::Human,
        };
        let cli = Cli { format, profile, verbose: st.verbose, command };
        proof {
            assert(cli.view().args =~= pv.skip(used as int));
        }
        Ok(cli)
    }
}

} // verus!
