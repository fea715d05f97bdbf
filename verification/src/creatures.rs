//! Creatures: the operational profiles of the agents the harness assigns to
//! tasks, and the registry of the built-in ones.
//!
//! Thresholds that the profile format writes as floating-point numbers are
//! held here by their IEEE-754 bit patterns.

use vstd::prelude::*;

use crate::text::{chars_of, same_chars};

verus! {

/// How much freedom a creature has to act without approval.
#[derive(Debug, Clone, Copy, PartialEq, Eq, Structural, Hash)]
pub enum AutonomyLevel {
    /// No autonomy (the level named `none`): every action requires explicit
    /// approval.
    Manual,
    /// Read-only / search actions auto-approved; writes need approval.
    Low,
    /// Writes within policy scope auto-approved; commits/externals need approval.
    Medium,
    /// Most actions auto-approved; only red-class actions need approval.
    High,
    /// Full autonomy: only hard policy blocks stop the creature.
    Full,
}

/// A capability a creature is allowed to invoke.
#[derive(Debug, Clone, PartialEq, Eq, Hash)]
pub struct ToolCapability {
    /// Tool name (e.g. "bash", "git", "browser", "mcp:search").
    pub name: String,
    /// Whether the tool is read-only for this creature.
    pub read_only: bool,
}

/// The kind of execution environment a creature prefers.
#[derive(Debug, Clone, Copy, PartialEq, Eq, Structural, Hash)]
pub enum WorldKind {
    LocalShell,
    WorktreeReadOnly,
    WorktreeReadWrite,
    Container,
    MicroVm,
    BrowserSandbox,
    MobileEmulator,
    RemoteRunner,
}

/// Conditions under which a creature should halt execution.
#[derive(Debug, Clone, Copy, PartialEq, Eq, Structural)]
pub enum StopCondition {
    /// Confidence drops below the threshold (its IEEE-754 `f64` bits).
    ConfidenceBelow(u64),
    /// Token budget exhausted.
    BudgetExhausted,
    /// Wall-clock deadline exceeded.
    DeadlineExceeded,
    /// Explicit operator stop signal.
    OperatorStop,
    /// Maximum number of tool calls reached.
    MaxToolCalls(u32),
}

/// When and how a creature should escalate to the operator or another creature.
#[derive(Debug, Clone)]
pub enum EscalationRule {
    /// Escalate when conflicting evidence is found.
    ConflictingEvidence,
    /// Escalate when secrets or credentials are detected.
    SecretsDetected,
    /// Escalate when confidence drops below the threshold (its IEEE-754
    /// `f64` bits).
    LowConfidence(u64),
    /// Escalate when a tool call fails repeatedly.
    RepeatedToolFailure { tool: String, max_retries: u32 },
    /// Escalate when proposed changes exceed a diff size threshold.
    LargeDiff { max_lines: u32 },
}

/// An escalation rule as plain values.
pub enum EscalationRuleView {
    ConflictingEvidence,
    SecretsDetected,
    LowConfidence(u64),
    RepeatedToolFailure { tool: Seq<char>, max_retries: u32 },
    LargeDiff { max_lines: u32 },
}

impl EscalationRule {
    pub open spec fn view(&self) -> EscalationRuleView {
        match self {
            EscalationRule::ConflictingEvidence => EscalationRuleView::ConflictingEvidence,
            EscalationRule::SecretsDetected => EscalationRuleView::SecretsDetected,
            EscalationRule::LowConfidence(b) => EscalationRuleView::LowConfidence(*b),
            EscalationRule::RepeatedToolFailure { tool, max_retries } => {
                EscalationRuleView::RepeatedToolFailure { tool: tool@, max_retries: *max_retries }
            },
            EscalationRule::LargeDiff { max_lines } => EscalationRuleView::LargeDiff {
                max_lines: *max_lines,
            },
        }
    }
}

/// Behavioral profile influencing how a creature approaches work.
#[derive(Debug, Clone, Copy, PartialEq, Eq, Structural, Hash)]
pub enum Temperament {
    /// Read-heavy, cautious, low-write.
    Cautious,
    /// Balanced read/write, moderate risk tolerance.
    Balanced,
    /// Write-heavy, action-oriented.
    Aggressive,
    /// Long-running, patient, retry-tolerant.
    Patient,
    /// Fast, parallel, throughput-oriented.
    Throughput,
}

/// The complete operational profile for a creature.
#[derive(Debug, Clone)]
pub struct CreatureSpec {
    /// Creature type name (e.g. "raven", "mantis", "hound").
    pub name: String,
    /// Human-readable role description.
    pub role: String,
    /// Behavioral temperament.
    pub temperament: Temperament,
    /// Tools this creature is allowed to invoke.
    pub toolbelt: Vec<ToolCapability>,
    /// Preferred execution environments, in priority order.
    pub preferred_worlds: Vec<WorldKind>,
    /// How much freedom the creature has.
    pub autonomy: AutonomyLevel,
    /// Conditions that halt the creature.
    pub stop_conditions: Vec<StopCondition>,
    /// Rules for when to escalate.
    pub escalation_rules: Vec<EscalationRule>,
    /// Optional token budget ceiling.
    pub token_budget: Option<u64>,
    /// Optional wall-clock deadline in seconds.
    pub deadline_secs: Option<u64>,
}

/// A creature profile as plain values.
pub struct CreatureSpecView {
    pub name: Seq<char>,
    pub role: Seq<char>,
    pub temperament: Temperament,
    /// (tool name, read-only) pairs.
    pub toolbelt: Seq<(Seq<char>, bool)>,
    pub preferred_worlds: Seq<WorldKind>,
    pub autonomy: AutonomyLevel,
    pub stop_conditions: Seq<StopCondition>,
    pub escalation_rules: Seq<EscalationRuleView>,
    pub token_budget: Option<u64>,
    pub deadline_secs: Option<u64>,
}

impl CreatureSpec {
    pub open spec fn view(&self) -> CreatureSpecView {
        CreatureSpecView {
            name: self.name@,
            role: self.role@,
            temperament: self.temperament,
            toolbelt: self.toolbelt@.map_values(|t: ToolCapability| (t.name@, t.read_only)),
            preferred_worlds: self.preferred_worlds@,
            autonomy: self.autonomy,
            stop_conditions: self.stop_conditions@,
            escalation_rules: self.escalation_rules@.map_values(|e: EscalationRule| e.view()),
            token_budget: self.token_budget,
            deadline_secs: self.deadline_secs,
        }
    }
}

/// The profiles of a list of creatures.
pub open spec fn specs_view(v: Seq<CreatureSpec>) -> Seq<CreatureSpecView> {
    v.map_values(|c: CreatureSpec| c.view())
}

/// A built-in profile: no stop conditions or escalation rules of its own.
pub open spec fn builtin_profile(
    name: Seq<char>,
    role: Seq<char>,
    temperament: Temperament,
    toolbelt: Seq<(Seq<char>, bool)>,
    world: WorldKind,
    autonomy: AutonomyLevel,
    token_budget: u64,
    deadline_secs: u64,
) -> CreatureSpecView {
    CreatureSpecView {
        name,
        role,
        temperament,
        toolbelt,
        preferred_worlds: seq![world],
        autonomy,
        stop_conditions: Seq::empty(),
        escalation_rules: Seq::empty(),
        token_budget: Some(token_budget),
        deadline_secs: Some(deadline_secs),
    }
}

/// The built-in creatures, in order: raven, mantis, hound and owl.
pub open spec fn builtin_specs() -> Seq<CreatureSpecView> {
    seq![
        builtin_profile(
            "raven"@,
            "reconnaissance and evidence gathering"@,
            Temperament::Cautious,
            seq![("grep"@, true), ("rg"@, true), ("browser"@, true)],
            WorldKind::WorktreeReadOnly,
            AutonomyLevel::Medium,
            50_000,
            300,
        ),
        builtin_profile(
            "mantis"@,
            "code surgery and patch application"@,
            Temperament::Balanced,
            seq![("bash"@, false), ("git"@, false)],
            WorldKind::WorktreeReadWrite,
            AutonomyLevel::Low,
            80_000,
            600,
        ),
        builtin_profile(
            "hound"@,
            "monitoring and regression hunting"@,
            Temperament::Patient,
            seq![("bash"@, true), ("test-runner"@, true)],
            WorldKind::Container,
            AutonomyLevel::Medium,
            40_000,
            900,
        ),
        builtin_profile(
            "owl"@,
            "evaluator, critic, and verifier"@,
            Temperament::Cautious,
            seq![("analyze"@, true)],
            WorldKind::LocalShell,
            AutonomyLevel::High,
            30_000,
            120,
        ),
    ]
}

/// The position of the first profile with the given name, if any.
pub open spec fn first_named(specs: Seq<CreatureSpecView>, name: Seq<char>) -> Option<int>
    decreases specs.len(),
{
    if specs.len() == 0 {
        None
    } else if specs[0].name == name {
        Some(0)
    } else {
        match first_named(specs.drop_first(), name) {
            Some(i) => Some(i + 1),
            None => None,
        }
    }
}

proof fn lemma_first_named(specs: Seq<CreatureSpecView>, name: Seq<char>)
    ensures
        match first_named(specs, name) {
            Some(i) => 0 <= i < specs.len() && specs[i].name == name && forall|j: int|
                0 <= j < i ==> specs[j].name != name,
            None => forall|j: int| 0 <= j < specs.len() ==> specs[j].name != name,
        },
    decreases specs.len(),
{
    if specs.len() > 0 && specs[0].name != name {
        lemma_first_named(specs.drop_first(), name);
        match first_named(specs.drop_first(), name) {
            Some(i) => {
                assert forall|j: int| 0 <= j < i + 1 implies specs[j].name != name by {
                    if j > 0 {
                        assert(specs[j] == specs.drop_first()[j - 1]);
                    }
                }
            },
            None => {
                assert forall|j: int| 0 <= j < specs.len() implies specs[j].name != name by {
                    if j > 0 {
                        assert(specs[j] == specs.drop_first()[j - 1]);
                    }
                }
            },
        }
    }
}

/// Why a creature could not be resolved.
#[derive(Debug, Clone)]
pub enum CreatureError {
    /// No creature has this name.
    Unknown(String),
}

impl CreatureError {
    pub open spec fn view(&self) -> Seq<char> {
        match self {
            CreatureError::Unknown(n) => n@,
        }
    }

    /// The error's message: `unknown creature: <name>`.
    pub fn message(&self) -> (m: String)
        ensures
            m@ == "unknown creature: "@ + self.view(),
    {
        match self {
            CreatureError::Unknown(n) => String::from_str("unknown creature: ").concat(n.as_str()),
        }
    }
}

/// Registry for resolving creature specs by name.
pub trait CreatureRegistry {
    /// Return all built-in creature specs.
    fn builtin(&self) -> Vec<CreatureSpec>;

    /// Resolve a creature spec by name.
    fn resolve(&self, name: &str) -> Result<CreatureSpec, CreatureError>;
}

/// The registry of the built-in creatures.
pub struct BuiltinCreatureRegistry;

fn capability(name: &str, read_only: bool) -> (c: ToolCapability)
    ensures
        c.name@ == name@,
        c.read_only == read_only,
{
    ToolCapability { name: String::from_str(name), read_only }
}

#[verifier::rlimit(40)]
fn profile(
    name: &str,
    role: &str,
    temperament: Temperament,
    toolbelt: Vec<ToolCapability>,
    world: WorldKind,
    autonomy: AutonomyLevel,
    token_budget: u64,
    deadline_secs: u64,
) -> (c: CreatureSpec)
    ensures
        c.view() == builtin_profile(
            name@,
            role@,
            temperament,
            toolbelt@.map_values(|t: ToolCapability| (t.name@, t.read_only)),
            world,
            autonomy,
            token_budget,
            deadline_secs,
        ),
{
    let mut preferred_worlds: Vec<WorldKind> = Vec::new();
    preferred_worlds.push(world);
    let stop_conditions: Vec<StopCondition> = Vec::new();
    let escalation_rules: Vec<EscalationRule> = Vec::new();
    let c = CreatureSpec {
        name: String::from_str(name),
        role: String::from_str(role),
        temperament,
        toolbelt,
        preferred_worlds,
        autonomy,
        stop_conditions,
        escalation_rules,
        token_budget: Some(token_budget),
        deadline_secs: Some(deadline_secs),
    };
    proof {
        assert(c.preferred_worlds@ =~= seq![world]);
        assert(c.stop_conditions@ =~= Seq::<StopCondition>::empty());
        assert(c.view().escalation_rules =~= Seq::<EscalationRuleView>::empty());
    }
    c
}

impl CreatureRegistry for BuiltinCreatureRegistry {
    #[verifier::rlimit(60)]
    fn builtin(&self) -> (r: Vec<CreatureSpec>)
        ensures
            specs_view(r@) =~~= builtin_specs(),
    {
        let mut raven_tools: Vec<ToolCapability> = Vec::new();
        raven_tools.push(capability("grep", true));
        raven_tools.push(capability("rg", true));
        raven_tools.push(capability("browser", true));
        let ghost raven_belt = raven_tools@.map_values(|t: ToolCapability| (t.name@, t.read_only));
        assert(raven_belt =~~= seq![("grep"@, true), ("rg"@, true), ("browser"@, true)]);
        let raven = profile(
            "raven",
            "reconnaissance and evidence gathering",
            Temperament::Cautious,
            raven_tools,
            WorldKind::WorktreeReadOnly,
            AutonomyLevel::Medium,
            50_000,
            300,
        );

        let mut mantis_tools: Vec<ToolCapability> = Vec::new();
        mantis_tools.push(capability("bash", false));
        mantis_tools.push(capability("git", false));
        let ghost mantis_belt = mantis_tools@.map_values(|t: ToolCapability| (t.name@, t.read_only));
        assert(mantis_belt =~~= seq![("bash"@, false), ("git"@, false)]);
        let mantis = profile(
            "mantis",
            "code surgery and patch application",
            Temperament::Balanced,
            mantis_tools,
            WorldKind::WorktreeReadWrite,
            AutonomyLevel::Low,
            80_000,
            600,
        );

        let mut hound_tools: Vec<ToolCapability> = Vec::new();
        hound_tools.push(capability("bash", true));
        hound_tools.push(capability("test-runner", true));
        let ghost hound_belt = hound_tools@.map_values(|t: ToolCapability| (t.name@, t.read_only));
        assert(hound_belt =~~= seq![("bash"@, true), ("test-runner"@, true)]);
        let hound = profile(
            "hound",
            "monitoring and regression hunting",
            Temperament::Patient,
            hound_tools,
            WorldKind::Container,
            AutonomyLevel::Medium,
            40_000,
            900,
        );

        let mut owl_tools: Vec<ToolCapability> = Vec::new();
        owl_tools.push(capability("analyze", true));
        let ghost owl_belt = owl_tools@.map_values(|t: ToolCapability| (t.name@, t.read_only));
        assert(owl_belt =~~= seq![("analyze"@, true)]);
        let owl = profile(
            "owl",
            "evaluator, critic, and verifier",
            Temperament::Cautious,
            owl_tools,
            WorldKind::LocalShell,
            AutonomyLevel::High,
            30_000,
            120,
        );

        let mut all: Vec<CreatureSpec> = Vec::new();
        all.push(raven);
        all.push(mantis);
        all.push(hound);
        all.push(owl);
        proof {
            assert(specs_view(all@) =~~= builtin_specs());
        }
        all
    }

    fn resolve(&self, name: &str) -> (r: Result<CreatureSpec, CreatureError>)
        ensures
            match first_named(builtin_specs(), name@) {
                Some(i) => r matches Ok(c) && c.view() == builtin_specs()[i],
                None => r matches Err(e) && e.view() == name@,
            },
    {
        let mut all = self.builtin();
        let ghost sv = specs_view(all@);
        proof {
            lemma_first_named(builtin_specs(), name@);
            assert(sv =~~= builtin_specs());
        }
        let wanted = chars_of(name);
        let mut i: usize = 0;
        while i < all.len()
            invariant
                i <= all@.len(),
                sv == specs_view(all@),
                sv == builtin_specs(),
                wanted@ == name@,
                forall|j: int| 0 <= j < i ==> sv[j].name != name@,
            decreases all.len() - i,
        {
            let n = chars_of(all[i].name.as_str());
            if same_chars(&n, &wanted) {
                proof {
                    assert(sv[i as int].name == name@);
                    lemma_first_named(sv, name@);
                    assert(sv[i as int] == all@[i as int].view());
                }
                let c = all.remove(i);
                return Ok(c);
            }
            i = i + 1;
        }
        proof {
            lemma_first_named(sv, name@);
        }
        Err(CreatureError::Unknown(String::from_str(name)))
    }
}

} // verus!
