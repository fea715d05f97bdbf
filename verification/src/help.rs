//! The keyboard help overlay's text: its sections and key bindings, as
//! styled lines for the terminal front end to draw.

use vstd::prelude::*;

use crate::message::{lines_view, StyleRole, StyledLine, StyledSpan};
use crate::text::{pad_right, pad_to};

verus! {

/// A row of the help text.
pub enum HelpRow {
    /// A section title.
    Section(Seq<char>),
    /// A key and what it does.
    Key(Seq<char>, Seq<char>),
    /// An empty line.
    Blank,
}

/// The width the keys are padded to.
pub const KEY_COLUMN: usize = 20;

/// How a row is drawn: a title in the brand style, a key (indented by two
/// spaces and padded to the key column) in the info style followed by its
/// description in the muted style, or an empty line.
pub open spec fn help_line(row: HelpRow) -> Seq<(Seq<char>, StyleRole)> {
    match row {
        HelpRow::Section(t) => seq![(t, StyleRole::Brand), (Seq::empty(), StyleRole::Plain)],
        HelpRow::Key(k, d) => seq![
            ("  "@ + pad_right(k, KEY_COLUMN as nat), StyleRole::Info),
            (d, StyleRole::TextMuted),
        ],
        HelpRow::Blank => seq![(Seq::empty(), StyleRole::Plain)],
    }
}

/// The rows of the help text, in order.
pub open spec fn help_rows() -> Seq<HelpRow> {
    seq![
        HelpRow::Section("Input"@),
        HelpRow::Key("Enter"@, "submit message / objective"@),
        HelpRow::Key("Backspace / Delete"@, "edit input"@),
        HelpRow::Key("← → / Home / End"@, "move cursor"@),
        HelpRow::Key("Alt+← / Alt+→"@, "move by word"@),
        HelpRow::Key("/ "@, "start a slash command"@),
        HelpRow::Blank,
        HelpRow::Section("Navigation"@),
        HelpRow::Key("↑ / ↓"@, "scroll message log"@),
        HelpRow::Key("PageUp / PageDown"@, "scroll fast"@),
        HelpRow::Key("Tab"@, "(in tool card) expand/collapse"@),
        HelpRow::Blank,
        HelpRow::Section("Global"@),
        HelpRow::Key("? "@, "toggle this help"@),
        HelpRow::Key("Ctrl+L"@, "switch dark/light theme"@),
        HelpRow::Key("Ctrl+Space"@, "clear conversation"@),
        HelpRow::Key("Ctrl+C / q"@, "quit"@),
        HelpRow::Blank,
        HelpRow::Section("Slash Commands"@),
        HelpRow::Key("/help"@, "show this help"@),
        HelpRow::Key("/run <objective>"@, "execute an objective"@),
        HelpRow::Key("/model <name>"@, "change model"@),
        HelpRow::Key("/tools"@, "list available tools"@),
        HelpRow::Key("/clear"@, "clear conversation"@),
        HelpRow::Key("/theme"@, "switch theme"@),
        HelpRow::Key("/quit"@, "exit chimera"@),
    ]
}

fn pad_key(k: &str) -> (s: String)
    ensures
        s@ == "  "@ + pad_right(k@, KEY_COLUMN as nat),
{
    String::from_str("  ").concat(pad_to(k, KEY_COLUMN).as_str())
}

fn section(title: &str) -> (l: StyledLine)
    ensures
        l.view() == help_line(HelpRow::Section(title@)),
{
    let mut spans: Vec<StyledSpan> = Vec::new();
    spans.push(StyledSpan { text: String::from_str(title), style: StyleRole::Brand });
    spans.push(StyledSpan { text: String::new(), style: StyleRole::Plain });
    let l = StyledLine { spans };
    assert(l.view() =~= help_line(HelpRow::Section(title@)));
    l
}

fn key(k: &str, desc: &str) -> (l: StyledLine)
    ensures
        l.view() == help_line(HelpRow::Key(k@, desc@)),
{
    let mut spans: Vec<StyledSpan> = Vec::new();
    spans.push(StyledSpan { text: pad_key(k), style: StyleRole::Info });
    spans.push(StyledSpan { text: String::from_str(desc), style: StyleRole::TextMuted });
    let l = StyledLine { spans };
    assert(l.view() =~= help_line(HelpRow::Key(k@, desc@)));
    l
}

fn blank() -> (l: StyledLine)
    ensures
        l.view() == help_line(HelpRow::Blank),
{
    let mut spans: Vec<StyledSpan> = Vec::new();
    spans.push(StyledSpan { text: String::new(), style: StyleRole::Plain });
    let l = StyledLine { spans };
    assert(l.view() =~= help_line(HelpRow::Blank));
    l
}

/// The lines of the help overlay, in order.
pub fn help_lines() -> (lines: Vec<StyledLine>)
    ensures
        lines_view(lines@) == help_rows().map_values(|r: HelpRow| help_line(r)),
{
    let mut v: Vec<StyledLine> = Vec::new();
    v.push(section("Input"));
    v.push(key("Enter", "submit message / objective"));
    v.push(key("Backspace / Delete", "edit input"));
    v.push(key("← → / Home / End", "move cursor"));
    v.push(key("Alt+← / Alt+→", "move by word"));
    v.push(key("/ ", "start a slash command"));
    v.push(blank());
    v.push(section("Navigation"));
    v.push(key("↑ / ↓", "scroll message log"));
    v.push(key("PageUp / PageDown", "scroll fast"));
    v.push(key("Tab", "(in tool card) expand/collapse"));
    v.push(blank());
    v.push(section("Global"));
    v.push(key("? ", "toggle this help"));
    v.push(key("Ctrl+L", "switch dark/light theme"));
    v.push(key("Ctrl+Space", "clear conversation"));
    v.push(key("Ctrl+C / q", "quit"));
    v.push(blank());
    v.push(section("Slash Commands"));
    v.push(key("/help", "show this help"));
    v.push(key("/run <objective>", "execute an objective"));
    v.push(key("/model <name>", "change model"));
    v.push(key("/tools", "list available tools"));
    v.push(key("/clear", "clear conversation"));
    v.push(key("/theme", "switch theme"));
    v.push(key("/quit", "exit chimera"));
    assert(lines_view(v@) =~= help_rows().map_values(|r: HelpRow| help_line(r)));
    v
}

} // verus!
