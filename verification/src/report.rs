//! The lines the commands print: session, creature, tool and trace
//! listings, and the summary of a run.

use vstd::prelude::*;

use crate::agent::{AgentRunResult, DoneReason};
use crate::creatures::{AutonomyLevel, CreatureSpec, Temperament};
use crate::outside::Timestamp;
use crate::text::{decimal, decimal_of, pad_right, pad_to, string_of, uuid_string, uuid_text};
use crate::tools::{ToolCategory, ToolDescriptor};
use crate::trace::{TraceEvent, TraceLevel};

verus! {

/// The name of an autonomy level, as the commands print it.
pub open spec fn autonomy_name(a: AutonomyLevel) -> Seq<char> {
    match a {
        AutonomyLevel::Manual => "None"@,
        AutonomyLevel::Low => "Low"@,
        AutonomyLevel::Medium => "Medium"@,
        AutonomyLevel::High => "High"@,
        AutonomyLevel::Full => "Full"@,
    }
}

/// The name of a temperament, as the commands print it.
pub open spec fn temperament_name(t: Temperament) -> Seq<char> {
    match t {
        Temperament::Cautious => "Cautious"@,
        Temperament::Balanced => "Balanced"@,
        Temperament::Aggressive => "Aggressive"@,
        Temperament::Patient => "Patient"@,
        Temperament::Throughput => "Throughput"@,
    }
}

/// The name of a tool category, as the commands print it.
pub open spec fn category_name(c: ToolCategory) -> Seq<char> {
    match c {
        ToolCategory::LocalExecution => "LocalExecution"@,
        ToolCategory::VersionControl => "VersionControl"@,
        ToolCategory::Mcp => "Mcp"@,
        ToolCategory::BrowserControl => "BrowserControl"@,
        ToolCategory::MobileControl => "MobileControl"@,
        ToolCategory::DesktopControl => "DesktopControl"@,
        ToolCategory::NetworkedComms => "NetworkedComms"@,
        ToolCategory::Eval => "Eval"@,
        ToolCategory::Observability => "Observability"@,
        ToolCategory::Memory => "Memory"@,
    }
}

/// The name of a trace level, in lower case.
pub open spec fn level_name(l: TraceLevel) -> Seq<char> {
    match l {
        TraceLevel::Debug => "debug"@,
        TraceLevel::Info => "info"@,
        TraceLevel::Warn => "warn"@,
        TraceLevel::Error => "error"@,
    }
}

/// The name of a reason to stop, as the commands print it.
pub open spec fn done_name(d: DoneReason) -> Seq<char> {
    match d {
        DoneReason::FinalAnswer => "FinalAnswer"@,
        DoneReason::MaxIterations => "MaxIterations"@,
        DoneReason::Error => "Error"@,
    }
}

pub(crate) fn autonomy_text(a: AutonomyLevel) -> (s: &'static str)
    ensures
        s@ == autonomy_name(a),
{
    match a {
        AutonomyLevel::Manual => "None",
        AutonomyLevel::Low => "Low",
        AutonomyLevel::Medium => "Medium",
        AutonomyLevel::High => "High",
        AutonomyLevel::Full => "Full",
    }
}

pub(crate) fn temperament_text(t: Temperament) -> (s: &'static str)
    ensures
        s@ == temperament_name(t),
{
    match t {
        Temperament::Cautious => "Cautious",
        Temperament::Balanced => "Balanced",
        Temperament::Aggressive => "Aggressive",
        Temperament::Patient => "Patient",
        Temperament::Throughput => "Throughput",
    }
}

fn category_text(c: ToolCategory) -> (s: &'static str)
    ensures
        s@ == category_name(c),
{
    match c {
        ToolCategory::LocalExecution => "LocalExecution",
        ToolCategory::VersionControl => "VersionControl",
        ToolCategory::Mcp => "Mcp",
        ToolCategory::BrowserControl => "BrowserControl",
        ToolCategory::MobileControl => "MobileControl",
        ToolCategory::DesktopControl => "DesktopControl",
        ToolCategory::NetworkedComms => "NetworkedComms",
        ToolCategory::Eval => "Eval",
        ToolCategory::Observability => "Observability",
        ToolCategory::Memory => "Memory",
    }
}

fn level_text(l: TraceLevel) -> (s: &'static str)
    ensures
        s@ == level_name(l),
{
    match l {
        TraceLevel::Debug => "debug",
        TraceLevel::Info => "info",
        TraceLevel::Warn => "warn",
        TraceLevel::Error => "error",
    }
}

fn done_text(d: DoneReason) -> (s: &'static str)
    ensures
        s@ == done_name(d),
{
    match d {
        DoneReason::FinalAnswer => "FinalAnswer",
        DoneReason::MaxIterations => "MaxIterations",
        DoneReason::Error => "Error",
    }
}

fn number(n: u64) -> (s: String)
    ensures
        s@ == decimal(n as nat),
{
    string_of(&decimal_of(n))
}

/// A session of `session list`: `  <id>  <label, padded to 20>  objective: <objective>`.
pub fn session_line(id: u128, label: &str, objective: &str) -> (s: String)
    ensures
        s@ == "  "@ + uuid_text(id) + "  "@ + pad_right(label@, 20) + "  objective: "@ + objective@,
{
    String::from_str("  ").concat(uuid_string(id).as_str()).concat("  ").concat(
        pad_to(label, 20).as_str(),
    ).concat("  objective: ").concat(objective)
}

/// A session of `session list` whose file cannot be read:
/// `  <id>  [unreadable: <error>]`.
pub fn unreadable_session_line(id: u128, error: &str) -> (s: String)
    ensures
        s@ == "  "@ + uuid_text(id) + "  [unreadable: "@ + error@ + "]"@,
{
    String::from_str("  ").concat(uuid_string(id).as_str()).concat("  [unreadable: ").concat(
        error,
    ).concat("]")
}

/// A creature of `creature list`: its name padded to 12, its role padded
/// to 10, its autonomy and its temperament.
pub fn creature_line(c: &CreatureSpec) -> (s: String)
    ensures
        s@ == "  "@ + pad_right(c.name@, 12) + " "@ + pad_right(c.role@, 10) + " autonomy="@
            + autonomy_name(c.autonomy) + " temperament="@ + temperament_name(c.temperament),
{
    String::from_str("  ").concat(pad_to(c.name.as_str(), 12).as_str()).concat(" ").concat(
        pad_to(c.role.as_str(), 10).as_str(),
    ).concat(" autonomy=").concat(autonomy_text(c.autonomy)).concat(" temperament=").concat(
        temperament_text(c.temperament),
    )
}

/// A tool of `tool list`: its name padded to 14, `ro` or `rw` padded to 3
/// in brackets, and its description.
pub fn tool_line(d: &ToolDescriptor) -> (s: String)
    ensures
        s@ == "  "@ + pad_right(d.name@, 14) + " ["@ + pad_right(
            if d.read_only {
                "ro"@
            } else {
                "rw"@
            },
            3,
        ) + "] "@ + d.description@,
{
    let access = if d.read_only {
        "ro"
    } else {
        "rw"
    };
    String::from_str("  ").concat(pad_to(d.name.as_str(), 14).as_str()).concat(" [").concat(
        pad_to(access, 3).as_str(),
    ).concat("] ").concat(d.description.as_str())
}

/// The lines of `tool inspect`: name, description, access and category.
pub fn tool_inspect_lines(d: &ToolDescriptor) -> (lines: Vec<String>)
    ensures
        lines@.len() == 4,
        lines@[0]@ == "name:        "@ + d.name@,
        lines@[1]@ == "description: "@ + d.description@,
        lines@[2]@ == "read_only:   "@ + (if d.read_only {
            "true"@
        } else {
            "false"@
        }),
        lines@[3]@ == "category:    "@ + category_name(d.category),
{
    let mut v: Vec<String> = Vec::new();
    v.push(String::from_str("name:        ").concat(d.name.as_str()));
    v.push(String::from_str("description: ").concat(d.description.as_str()));
    v.push(
        String::from_str("read_only:   ").concat(
            if d.read_only {
                "true"
            } else {
                "false"
            },
        ),
    );
    v.push(String::from_str("category:    ").concat(category_text(d.category)));
    v
}

/// A number of two digits, with a leading zero.
pub open spec fn two_digits(n: nat) -> Seq<char> {
    if n < 10 {
        "0"@ + decimal(n)
    } else {
        decimal(n)
    }
}

/// A number of three digits, with leading zeros.
pub open spec fn three_digits(n: nat) -> Seq<char> {
    if n < 10 {
        "00"@ + decimal(n)
    } else if n < 100 {
        "0"@ + decimal(n)
    } else {
        decimal(n)
    }
}

/// The UTC time of day of a moment as `HH:MM:SS`. A leap second, which
/// holds a billion nanoseconds or more, shows as second 60.
pub open spec fn clock_hms(secs: int, nanos: nat) -> Seq<char> {
    let day = secs % 86400;
    two_digits((day / 3600) as nat) + ":"@ + two_digits(((day % 3600) / 60) as nat) + ":"@
        + two_digits((day % 60 + nanos / 1_000_000_000) as nat)
}

/// The UTC time of day of a moment as `HH:MM:SS.mmm`.
pub open spec fn clock_time(secs: int, nanos: nat) -> Seq<char> {
    clock_hms(secs, nanos) + "."@ + three_digits((nanos % 1_000_000_000) / 1_000_000)
}

fn two(n: u64) -> (s: String)
    ensures
        s@ == two_digits(n as nat),
{
    if n < 10 {
        String::from_str("0").concat(number(n).as_str())
    } else {
        number(n)
    }
}

fn three(n: u64) -> (s: String)
    ensures
        s@ == three_digits(n as nat),
{
    if n < 10 {
        String::from_str("00").concat(number(n).as_str())
    } else if n < 100 {
        String::from_str("0").concat(number(n).as_str())
    } else {
        number(n)
    }
}

/// The UTC time of day of a moment as `HH:MM:SS`.
pub fn time_of_day(t: Timestamp) -> (s: String)
    ensures
        s@ == clock_hms(t.secs as int, t.nanos as nat),
{
    let secs = t.secs;
    let day = secs % 86400;
    let day: u64 = if day < 0 {
        (day + 86400) as u64
    } else {
        day as u64
    };
    assert(day == (secs as int) % 86400);
    let nanos = t.nanos as u64;
    two(day / 3600).concat(":").concat(two((day % 3600) / 60).as_str()).concat(":").concat(
        two(day % 60 + nanos / 1_000_000_000).as_str(),
    )
}

/// A trace event of `trace export`: `[HH:MM:SS.mmm] <level, padded to 5>
/// <span, padded to 24> <message>`, the time of day in UTC.
pub fn trace_line(e: &TraceEvent) -> (s: String)
    ensures
        s@ == "["@ + clock_time(e.timestamp.secs as int, e.timestamp.nanos as nat) + "] "@
            + pad_right(level_name(e.level), 5) + " "@ + pad_right(e.span@, 24) + " "@
            + e.message@,
{
    let nanos = e.timestamp.nanos as u64;
    let clock = time_of_day(e.timestamp).concat(".").concat(
        three((nanos % 1_000_000_000) / 1_000_000).as_str(),
    );
    String::from_str("[").concat(clock.as_str()).concat("] ").concat(
        pad_to(level_text(e.level), 5).as_str(),
    ).concat(" ").concat(pad_to(e.span.as_str(), 24).as_str()).concat(" ").concat(
        e.message.as_str(),
    )
}

/// The summary printed after a run: `iterations: <n>  |  done: <reason>  |
/// tokens: <prompt>+<completion>`.
pub fn run_summary(r: &AgentRunResult) -> (s: String)
    ensures
        s@ == "iterations: "@ + decimal(r.iterations as nat) + "  |  done: "@ + done_name(
            r.done_reason,
        ) + "  |  tokens: "@ + decimal(r.total_prompt_tokens as nat) + "+"@ + decimal(
            r.total_completion_tokens as nat,
        ),
{
    String::from_str("iterations: ").concat(number(r.iterations as u64).as_str()).concat(
        "  |  done: ",
    ).concat(done_text(r.done_reason)).concat("  |  tokens: ").concat(
        number(r.total_prompt_tokens).as_str(),
    ).concat("+").concat(number(r.total_completion_tokens).as_str())
}

} // verus!
