//! The conversation model of the streaming chat: messages, word wrapping,
//! the styled lines each message renders to, and the bounded scrollable log.

use std::collections::VecDeque;

use vstd::prelude::*;

use crate::text::{
    byte_len, byte_len_of, chars_of, concat_chars, decimal, decimal_of, is_unicode_ws,
    is_whitespace_char, lemma_byte_len_concat, lemma_byte_len_space, string_of,
};

verus! {

// ---------------------------------------------------------------------------
// Word wrapping
// ---------------------------------------------------------------------------

/// `str::split('\n')` seen as a scan: `cur` is the part of the current
/// paragraph already read.
pub open spec fn paragraphs_from(s: Seq<char>, cur: Seq<char>) -> Seq<Seq<char>>
    decreases s.len(),
{
    if s.len() == 0 {
        seq![cur]
    } else if s[0] == '\n' {
        seq![cur] + paragraphs_from(s.drop_first(), Seq::empty())
    } else {
        paragraphs_from(s.drop_first(), cur.push(s[0]))
    }
}

/// The paragraphs of a text: the pieces between line feeds.
pub open spec fn paragraphs(s: Seq<char>) -> Seq<Seq<char>> {
    paragraphs_from(s, Seq::empty())
}

/// `str::split_whitespace` seen as a scan: `cur` is the part of the current
/// word already read.
pub open spec fn words_from(s: Seq<char>, cur: Seq<char>) -> Seq<Seq<char>>
    decreases s.len(),
{
    if s.len() == 0 {
        if cur.len() > 0 {
            seq![cur]
        } else {
            Seq::empty()
        }
    } else if is_unicode_ws(s[0]) {
        (if cur.len() > 0 {
            seq![cur]
        } else {
            Seq::<Seq<char>>::empty()
        }) + words_from(s.drop_first(), Seq::empty())
    } else {
        words_from(s.drop_first(), cur.push(s[0]))
    }
}

/// The words of a text: its maximal runs of non-whitespace characters.
pub open spec fn words(s: Seq<char>) -> Seq<Seq<char>> {
    words_from(s, Seq::empty())
}

/// Greedy filling: `current` is the line being built; a word joins it,
/// after one space, while the line's byte length stays within `max`.
pub open spec fn fill(ws: Seq<Seq<char>>, current: Seq<char>, max: nat) -> Seq<Seq<char>>
    decreases ws.len(),
{
    if ws.len() == 0 {
        if current.len() > 0 {
            seq![current]
        } else {
            Seq::empty()
        }
    } else if current.len() == 0 {
        fill(ws.drop_first(), ws[0], max)
    } else if byte_len(current) + 1 + byte_len(ws[0]) <= max {
        fill(ws.drop_first(), current + seq![' '] + ws[0], max)
    } else {
        seq![current] + fill(ws.drop_first(), ws[0], max)
    }
}

/// The wrapped lines of the paragraphs in `ps`: an empty paragraph gives an
/// empty line, any other its filled lines.
pub open spec fn wrap_paragraphs(ps: Seq<Seq<char>>, max: nat) -> Seq<Seq<char>>
    decreases ps.len(),
{
    if ps.len() == 0 {
        Seq::empty()
    } else {
        (if ps[0].len() == 0 {
            seq![Seq::<char>::empty()]
        } else {
            fill(words(ps[0]), Seq::empty(), max)
        }) + wrap_paragraphs(ps.drop_first(), max)
    }
}

/// Word-wrap `text` to lines of at most `max` bytes (a single word longer
/// than that stands on a line of its own); `max == 0` leaves the text whole.
pub open spec fn wrapped(text: Seq<char>, max: nat) -> Seq<Seq<char>> {
    if max == 0 {
        seq![text]
    } else {
        let r = wrap_paragraphs(paragraphs(text), max);
        if r.len() == 0 {
            seq![Seq::<char>::empty()]
        } else {
            r
        }
    }
}

/// A character sequence without whitespace.
pub open spec fn no_ws(s: Seq<char>) -> bool {
    forall|i: int| 0 <= i < s.len() ==> !is_unicode_ws(#[trigger] s[i])
}

/// A wrapped line is acceptable for width `max` when it fits in `max` bytes
/// or is a single word.
pub open spec fn line_ok(l: Seq<char>, max: nat) -> bool {
    byte_len(l) <= max || no_ws(l)
}

proof fn lemma_words_from_no_ws(s: Seq<char>, cur: Seq<char>)
    requires
        no_ws(cur),
    ensures
        forall|i: int| 0 <= i < words_from(s, cur).len() ==> no_ws(#[trigger] words_from(s, cur)[i]),
    decreases s.len(),
{
    if s.len() == 0 {
        if cur.len() > 0 {
            assert(words_from(s, cur)[0] == cur);
        }
    } else if is_unicode_ws(s[0]) {
        lemma_words_from_no_ws(s.drop_first(), Seq::empty());
        let head = if cur.len() > 0 {
            seq![cur]
        } else {
            Seq::<Seq<char>>::empty()
        };
        let tail = words_from(s.drop_first(), Seq::empty());
        assert forall|i: int| 0 <= i < words_from(s, cur).len() implies no_ws(
            #[trigger] words_from(s, cur)[i],
        ) by {
            if i >= head.len() {
                assert(words_from(s, cur)[i] == tail[i - head.len()]);
            }
        }
    } else {
        assert forall|i: int| 0 <= i < cur.push(s[0]).len() implies !is_unicode_ws(
            #[trigger] cur.push(s[0])[i],
        ) by {
            if i < cur.len() {
                assert(cur.push(s[0])[i] == cur[i]);
            }
        }
        lemma_words_from_no_ws(s.drop_first(), cur.push(s[0]));
        assert(words_from(s, cur) == words_from(s.drop_first(), cur.push(s[0])));
    }
}

proof fn lemma_fill_lines_ok(ws: Seq<Seq<char>>, current: Seq<char>, max: nat)
    requires
        forall|i: int| 0 <= i < ws.len() ==> no_ws(#[trigger] ws[i]),
        line_ok(current, max),
    ensures
        forall|i: int| 0 <= i < fill(ws, current, max).len() ==> line_ok(
            #[trigger] fill(ws, current, max)[i],
            max,
        ),
    decreases ws.len(),
{
    if ws.len() == 0 {
        if current.len() > 0 {
            assert(fill(ws, current, max)[0] == current);
        }
    } else {
        let rest = ws.drop_first();
        assert forall|i: int| 0 <= i < rest.len() implies no_ws(#[trigger] rest[i]) by {
            assert(rest[i] == ws[i + 1]);
        }
        assert(no_ws(ws[0]));
        if current.len() == 0 {
            lemma_fill_lines_ok(rest, ws[0], max);
            assert(fill(ws, current, max) == fill(rest, ws[0], max));
        } else if byte_len(current) + 1 + byte_len(ws[0]) <= max {
            lemma_byte_len_concat(current, seq![' ']);
            lemma_byte_len_concat(current + seq![' '], ws[0]);
            lemma_byte_len_space();
            lemma_fill_lines_ok(rest, current + seq![' '] + ws[0], max);
            assert(fill(ws, current, max) == fill(rest, current + seq![' '] + ws[0], max));
        } else {
            lemma_fill_lines_ok(rest, ws[0], max);
            let tail = fill(rest, ws[0], max);
            assert forall|i: int| 0 <= i < fill(ws, current, max).len() implies line_ok(
                #[trigger] fill(ws, current, max)[i],
                max,
            ) by {
                if i > 0 {
                    assert(fill(ws, current, max)[i] == tail[i - 1]);
                }
            }
        }
    }
}

proof fn lemma_wrap_paragraphs_ok(ps: Seq<Seq<char>>, max: nat)
    ensures
        forall|i: int| 0 <= i < wrap_paragraphs(ps, max).len() ==> line_ok(
            #[trigger] wrap_paragraphs(ps, max)[i],
            max,
        ),
    decreases ps.len(),
{
    if ps.len() > 0 {
        lemma_wrap_paragraphs_ok(ps.drop_first(), max);
        let head = if ps[0].len() == 0 {
            seq![Seq::<char>::empty()]
        } else {
            fill(words(ps[0]), Seq::empty(), max)
        };
        if ps[0].len() == 0 {
            assert(byte_len(Seq::<char>::empty()) == 0);
        } else {
            lemma_words_from_no_ws(ps[0], Seq::empty());
            assert(byte_len(Seq::<char>::empty()) == 0);
            lemma_fill_lines_ok(words(ps[0]), Seq::empty(), max);
        }
        let tail = wrap_paragraphs(ps.drop_first(), max);
        assert forall|i: int| 0 <= i < wrap_paragraphs(ps, max).len() implies line_ok(
            #[trigger] wrap_paragraphs(ps, max)[i],
            max,
        ) by {
            if i < head.len() {
                assert(wrap_paragraphs(ps, max)[i] == head[i]);
            } else {
                assert(wrap_paragraphs(ps, max)[i] == tail[i - head.len()]);
            }
        }
    }
}

/// Every wrapped line fits in the width, unless it is a single word longer
/// than the width; wrapping always gives at least one line.
pub proof fn law_wrapped_lines_fit(text: Seq<char>, max: nat)
    requires
        max > 0,
    ensures
        wrapped(text, max).len() >= 1,
        forall|i: int| 0 <= i < wrapped(text, max).len() ==> line_ok(
            #[trigger] wrapped(text, max)[i],
            max,
        ),
{
    lemma_wrap_paragraphs_ok(paragraphs(text), max);
    assert(byte_len(Seq::<char>::empty()) == 0);
}

fn split_paragraphs(s: &Vec<char>) -> (r: Vec<Vec<char>>)
    ensures
        r@.map_values(|v: Vec<char>| v@) == paragraphs(s@),
{
    let mut out: Vec<Vec<char>> = Vec::new();
    let mut cur: Vec<char> = Vec::new();
    let mut i: usize = 0;
    assert(s@.skip(0) =~= s@);
    while i < s.len()
        invariant
            i <= s@.len(),
            out@.map_values(|v: Vec<char>| v@) + paragraphs_from(s@.skip(i as int), cur@)
                == paragraphs(s@),
        decreases s.len() - i,
    {
        let ghost rest = s@.skip(i as int);
        assert(rest.drop_first() =~= s@.skip(i + 1));
        assert(rest[0] == s@[i as int]);
        let ghost before = out@.map_values(|v: Vec<char>| v@);
        if s[i] == '\n' {
            let done = cur;
            cur = Vec::new();
            out.push(done);
            assert(out@.map_values(|v: Vec<char>| v@) =~= before.push(done@));
            assert(before + paragraphs_from(rest, done@) =~= before.push(done@)
                + paragraphs_from(s@.skip(i + 1), Seq::empty()));
        } else {
            cur.push(s[i]);
        }
        i = i + 1;
    }
    let ghost before = out@.map_values(|v: Vec<char>| v@);
    out.push(cur);
    assert(out@.map_values(|v: Vec<char>| v@) =~= before + paragraphs_from(
        s@.skip(i as int),
        cur@,
    ));
    out
}

fn split_words(s: &Vec<char>) -> (r: Vec<Vec<char>>)
    ensures
        r@.map_values(|v: Vec<char>| v@) == words(s@),
{
    let mut out: Vec<Vec<char>> = Vec::new();
    let mut cur: Vec<char> = Vec::new();
    let mut i: usize = 0;
    assert(s@.skip(0) =~= s@);
    while i < s.len()
        invariant
            i <= s@.len(),
            out@.map_values(|v: Vec<char>| v@) + words_from(s@.skip(i as int), cur@) == words(
                s@,
            ),
        decreases s.len() - i,
    {
        let ghost rest = s@.skip(i as int);
        assert(rest.drop_first() =~= s@.skip(i + 1));
        assert(rest[0] == s@[i as int]);
        let ghost before = out@.map_values(|v: Vec<char>| v@);
        if is_whitespace_char(s[i]) {
            if cur.len() > 0 {
                let done = cur;
                cur = Vec::new();
                out.push(done);
                assert(out@.map_values(|v: Vec<char>| v@) =~= before.push(done@));
                assert(before + words_from(rest, done@) =~= before.push(done@) + words_from(
                    s@.skip(i + 1),
                    Seq::empty(),
                ));
            } else {
                assert(cur@ =~= Seq::<char>::empty());
                assert(before + words_from(rest, cur@) =~= before + words_from(
                    s@.skip(i + 1),
                    Seq::empty(),
                ));
            }
        } else {
            let ghost c0 = cur@;
            cur.push(s[i]);
            assert(words_from(rest, c0) == words_from(s@.skip(i + 1), c0.push(s@[i as int])));
        }
        i = i + 1;
    }
    let ghost before = out@.map_values(|v: Vec<char>| v@);
    if cur.len() > 0 {
        out.push(cur);
        assert(out@.map_values(|v: Vec<char>| v@) =~= before.push(cur@));
    } else {
        assert(before + words_from(s@.skip(i as int), cur@) =~= before);
    }
    out
}

fn fill_words(ws: &Vec<Vec<char>>, max: usize) -> (r: Vec<Vec<char>>)
    ensures
        r@.map_values(|v: Vec<char>| v@) == fill(
            ws@.map_values(|v: Vec<char>| v@),
            Seq::empty(),
            max as nat,
        ),
{
    let ghost wv = ws@.map_values(|v: Vec<char>| v@);
    let mut out: Vec<Vec<char>> = Vec::new();
    let mut current: Vec<char> = Vec::new();
    let mut cur_b: u128 = 0;
    let mut i: usize = 0;
    assert(wv.skip(0) =~= wv);
    while i < ws.len()
        invariant
            i <= ws@.len(),
            wv == ws@.map_values(|v: Vec<char>| v@),
            cur_b == byte_len(current@),
            cur_b <= 4 * (usize::MAX as int),
            out@.map_values(|v: Vec<char>| v@) + fill(wv.skip(i as int), current@, max as nat)
                == fill(wv, Seq::empty(), max as nat),
        decreases ws.len() - i,
    {
        let ghost rest = wv.skip(i as int);
        assert(rest.drop_first() =~= wv.skip(i + 1));
        assert(rest[0] == ws@[i as int]@);
        let ghost before = out@.map_values(|v: Vec<char>| v@);
        let w = &ws[i];
        let w_b = byte_len_of(w);
        assert(w.len() <= usize::MAX);
        if current.len() == 0 {
            current = w.clone();
            cur_b = w_b;
        } else if cur_b + 1 + w_b <= max as u128 {
            let mut sep: Vec<char> = Vec::new();
            sep.push(' ');
            let joined = concat_chars(&current, &sep);
            let joined = concat_chars(&joined, w);
            proof {
                lemma_byte_len_concat(current@, seq![' ']);
                lemma_byte_len_concat(current@ + seq![' '], w@);
                lemma_byte_len_space();
                assert(sep@ =~= seq![' ']);
            }
            current = joined;
            cur_b = cur_b + 1 + w_b;
        } else {
            let done = current;
            current = w.clone();
            cur_b = w_b;
            out.push(done);
            assert(out@.map_values(|v: Vec<char>| v@) =~= before.push(done@));
            assert(before + fill(rest, done@, max as nat) =~= before.push(done@) + fill(
                wv.skip(i + 1),
                w@,
                max as nat,
            ));
        }
        i = i + 1;
    }
    let ghost before = out@.map_values(|v: Vec<char>| v@);
    assert(wv.skip(i as int).len() == 0);
    if current.len() > 0 {
        out.push(current);
        assert(out@.map_values(|v: Vec<char>| v@) =~= before.push(current@));
    } else {
        assert(before + fill(wv.skip(i as int), current@, max as nat) =~= before);
    }
    out
}

/// Word-wrap `text` to lines of at most `max_width` bytes.
pub fn wrap_text(text: &str, max_width: usize) -> (lines: Vec<String>)
    ensures
        lines@.map_values(|s: String| s@) == wrapped(text@, max_width as nat),
{
    let chars = chars_of(text);
    let mut result: Vec<String> = Vec::new();
    if max_width == 0 {
        result.push(string_of(&chars));
        assert(result@.map_values(|s: String| s@) =~= seq![text@]);
        return result;
    }
    let paras = split_paragraphs(&chars);
    let ghost pv = paras@.map_values(|v: Vec<char>| v@);
    let mut i: usize = 0;
    assert(pv.skip(0) =~= pv);
    while i < paras.len()
        invariant
            i <= paras@.len(),
            pv == paras@.map_values(|v: Vec<char>| v@),
            pv == paragraphs(text@),
            result@.map_values(|s: String| s@) + wrap_paragraphs(pv.skip(i as int), max_width as nat)
                == wrap_paragraphs(pv, max_width as nat),
        decreases paras.len() - i,
    {
        let ghost rest = pv.skip(i as int);
        assert(rest.drop_first() =~= pv.skip(i + 1));
        assert(rest[0] == paras@[i as int]@);
        let ghost before = result@.map_values(|s: String| s@);
        let p = &paras[i];
        if p.len() == 0 {
            result.push(String::new());
            assert(result@.map_values(|s: String| s@) =~= before + seq![Seq::<char>::empty()]);
            assert(before + wrap_paragraphs(rest, max_width as nat) =~= before + seq![
                Seq::<char>::empty(),
            ] + wrap_paragraphs(pv.skip(i + 1), max_width as nat));
        } else {
            let ws = split_words(p);
            let lines = fill_words(&ws, max_width);
            let ghost lv = lines@.map_values(|v: Vec<char>| v@);
            let mut k: usize = 0;
            while k < lines.len()
                invariant
                    k <= lines@.len(),
                    lv == lines@.map_values(|v: Vec<char>| v@),
                    result@.map_values(|s: String| s@) == before + lv.subrange(0, k as int),
                decreases lines.len() - k,
            {
                let ghost b2 = result@.map_values(|s: String| s@);
                result.push(string_of(&lines[k]));
                assert(result@.map_values(|s: String| s@) =~= b2.push(lv[k as int]));
                assert(lv.subrange(0, k + 1) =~= lv.subrange(0, k as int).push(lv[k as int]));
                k = k + 1;
            }
            assert(lv.subrange(0, k as int) =~= lv);
            assert(before + wrap_paragraphs(rest, max_width as nat) =~= before + lv
                + wrap_paragraphs(pv.skip(i + 1), max_width as nat));
        }
        i = i + 1;
    }
    assert(pv.skip(i as int).len() == 0);
    assert(result@.map_values(|s: String| s@) =~= wrap_paragraphs(pv, max_width as nat));
    if result.len() == 0 {
        result.push(String::new());
        assert(result@.map_values(|s: String| s@) =~= seq![Seq::<char>::empty()]);
    }
    result
}


// ---------------------------------------------------------------------------
// Messages and their styled lines
// ---------------------------------------------------------------------------

/// Severity/kind of a system message.
#[derive(Debug, Clone, Copy, PartialEq, Eq, Structural)]
pub enum SystemKind {
    Info,
    Success,
    Warning,
    Error,
}

/// A single entry in the conversation stream.
#[derive(Debug, Clone)]
pub enum Message {
    /// A user-submitted objective or follow-up.
    User { text: String },
    /// Assistant text, accumulating while `streaming`.
    Assistant { text: String, streaming: bool },
    /// A tool call executed by the agent.
    ToolCall {
        id: String,
        name: String,
        arguments: String,
        result: Option<String>,
        ok: Option<bool>,
        duration_ms: Option<u64>,
        /// Whether the card is expanded.
        expanded: bool,
    },
    /// A system/status line (errors, info, checkpoints).
    System { text: String, kind: SystemKind },
    /// A section divider (e.g. "Iteration 3").
    Divider { label: String },
}

/// The semantic style of a span; the terminal front end maps each role to
/// the colors of the active theme.
#[derive(Debug, Clone, Copy, PartialEq, Eq, Structural)]
pub enum StyleRole {
    Plain,
    Brand,
    Text,
    TextMuted,
    TextSubtle,
    TextFaint,
    Success,
    Warning,
    Error,
    Info,
    RoleUser,
    RoleAssistant,
    SyntaxString,
}

/// A run of text drawn in one style.
#[derive(Debug, Clone)]
pub struct StyledSpan {
    pub text: String,
    pub style: StyleRole,
}

/// One terminal line: its spans, left to right.
#[derive(Debug, Clone)]
pub struct StyledLine {
    pub spans: Vec<StyledSpan>,
}

impl StyledLine {
    pub open spec fn view(&self) -> Seq<(Seq<char>, StyleRole)> {
        self.spans@.map_values(|sp: StyledSpan| (sp.text@, sp.style))
    }
}

/// The view of a list of lines.
pub open spec fn lines_view(v: Seq<StyledLine>) -> Seq<Seq<(Seq<char>, StyleRole)>> {
    v.map_values(|l: StyledLine| l.view())
}

/// Each wrapped line as a one-span line: `indent` followed by the text.
pub open spec fn indented(
    lines: Seq<Seq<char>>,
    indent: Seq<char>,
    style: StyleRole,
) -> Seq<Seq<(Seq<char>, StyleRole)>> {
    lines.map_values(|l: Seq<char>| seq![(indent + l, style)])
}

/// Width left for text after a margin (`usize::saturating_sub`).
pub open spec fn width_after(width: nat, margin: nat) -> nat {
    if width >= margin {
        (width - margin) as nat
    } else {
        0
    }
}

/// Icon and style of a tool call's status.
pub open spec fn tool_status(ok: Option<bool>) -> (Seq<char>, StyleRole) {
    match ok {
        Some(true) => ("✓"@, StyleRole::Success),
        Some(false) => ("✗"@, StyleRole::Error),
        None => ("⟳"@, StyleRole::Warning),
    }
}

/// Icon and style of a system message.
pub open spec fn system_style(kind: SystemKind) -> (Seq<char>, StyleRole) {
    match kind {
        SystemKind::Info => ("ℹ"@, StyleRole::Info),
        SystemKind::Success => ("✓"@, StyleRole::Success),
        SystemKind::Warning => ("⚠"@, StyleRole::Warning),
        SystemKind::Error => ("✗"@, StyleRole::Error),
    }
}

/// The duration label of a tool call: ` {d}ms`, or nothing.
pub open spec fn duration_label(d: Option<u64>) -> Seq<char> {
    match d {
        Some(ms) => " "@ + decimal(ms as nat) + "ms"@,
        None => Seq::empty(),
    }
}

/// The lines a message renders to at the given terminal width.
pub open spec fn message_lines(m: Message, width: nat) -> Seq<Seq<(Seq<char>, StyleRole)>> {
    match m {
        Message::User { text } => seq![
            seq![("▸ "@, StyleRole::RoleUser), ("you"@, StyleRole::RoleUser)],
        ] + indented(wrapped(text@, width_after(width, 2)), "  "@, StyleRole::Text),
        Message::Assistant { text, streaming } => seq![
            seq![
                ("◆ "@, StyleRole::RoleAssistant),
                ("chimera"@, StyleRole::RoleAssistant),
                if streaming {
                    (" ▌"@, StyleRole::Brand)
                } else {
                    (Seq::<char>::empty(), StyleRole::Plain)
                },
            ],
        ] + indented(wrapped(text@, width_after(width, 2)), "  "@, StyleRole::Text),
        Message::ToolCall { id: _, name, arguments, result, ok, duration_ms, expanded } => {
            let (icon, st) = tool_status(ok);
            let header = seq![
                ("  "@ + icon + " "@, st),
                (name@, StyleRole::Info),
                (duration_label(duration_ms), StyleRole::TextSubtle),
                (" [tab to expand]"@, StyleRole::TextFaint),
            ];
            if expanded {
                let args = seq![seq![("    args:"@, StyleRole::TextSubtle)]] + indented(
                    wrapped(arguments@, width_after(width, 8)),
                    "      "@,
                    StyleRole::SyntaxString,
                );
                let res = match result {
                    Some(r) => seq![seq![("    result:"@, StyleRole::TextSubtle)]] + indented(
                        wrapped(r@, width_after(width, 8)),
                        "      "@,
                        StyleRole::TextMuted,
                    ),
                    None => Seq::empty(),
                };
                seq![header] + args + res
            } else {
                seq![header]
            }
        },
        Message::System { text, kind } => {
            let (icon, st) = system_style(kind);
            let ws = wrapped(text@, width_after(width, 4));
            seq![seq![("  "@ + icon + " "@, st), (ws[0], st)]] + indented(
                ws.drop_first(),
                "    "@,
                st,
            )
        },
        Message::Divider { label } => seq![
            seq![
                ("───"@, StyleRole::TextFaint),
                (" "@ + label@ + " "@, StyleRole::TextSubtle),
                ("───"@, StyleRole::TextFaint),
            ],
        ],
    }
}

fn span(text: String, style: StyleRole) -> (sp: StyledSpan)
    ensures
        sp.text@ == text@,
        sp.style == style,
{
    StyledSpan { text, style }
}

fn push_indented(out: &mut Vec<StyledLine>, lines: &Vec<String>, indent: &str, style: StyleRole)
    ensures
        lines_view(final(out)@) == lines_view(old(out)@) + indented(
            lines@.map_values(|s: String| s@),
            indent@,
            style,
        ),
{
    let ghost lv = lines@.map_values(|s: String| s@);
    let ghost base = lines_view(out@);
    let mut i: usize = 0;
    while i < lines.len()
        invariant
            i <= lines@.len(),
            lv == lines@.map_values(|s: String| s@),
            lines_view(out@) == base + indented(lv.subrange(0, i as int), indent@, style),
        decreases lines.len() - i,
    {
        let ghost before = out@;
        let text = String::from_str(indent).concat(lines[i].as_str());
        let mut spans: Vec<StyledSpan> = Vec::new();
        spans.push(span(text, style));
        let line = StyledLine { spans };
        assert(line.view() =~= seq![(indent@ + lv[i as int], style)]);
        out.push(line);
        assert(lines_view(out@) =~= lines_view(before).push(line.view()));
        assert(indented(lv.subrange(0, i + 1), indent@, style) =~= indented(
            lv.subrange(0, i as int),
            indent@,
            style,
        ).push(seq![(indent@ + lv[i as int], style)]));
        i = i + 1;
    }
    assert(lv.subrange(0, i as int) =~= lv);
}

fn one_line(spans: Vec<StyledSpan>) -> (v: Vec<StyledLine>)
    ensures
        lines_view(v@) == seq![spans@.map_values(|sp: StyledSpan| (sp.text@, sp.style))],
{
    let mut v: Vec<StyledLine> = Vec::new();
    v.push(StyledLine { spans });
    assert(lines_view(v@) =~= seq![spans@.map_values(|sp: StyledSpan| (sp.text@, sp.style))]);
    v
}

impl Message {
    /// Render this message into styled lines for a terminal of the given
    /// width.
    pub fn to_lines(&self, width: usize) -> (lines: Vec<StyledLine>)
        ensures
            lines_view(lines@) == message_lines(*self, width as nat),
    {
        match self {
            Message::User { text } => {
                let mut spans: Vec<StyledSpan> = Vec::new();
                spans.push(span(String::from_str("▸ "), StyleRole::RoleUser));
                spans.push(span(String::from_str("you"), StyleRole::RoleUser));
                let mut out = one_line(spans);
                let ws = wrap_text(text.as_str(), width.saturating_sub(2));
                push_indented(&mut out, &ws, "  ", StyleRole::Text);
                proof {
                    assert(lines_view(out@) =~~= message_lines(*self, width as nat));
                }
                out
            },
            Message::Assistant { text, streaming } => {
                let mut spans: Vec<StyledSpan> = Vec::new();
                spans.push(span(String::from_str("◆ "), StyleRole::RoleAssistant));
                spans.push(span(String::from_str("chimera"), StyleRole::RoleAssistant));
                if *streaming {
                    spans.push(span(String::from_str(" ▌"), StyleRole::Brand));
                } else {
                    spans.push(span(String::new(), StyleRole::Plain));
                }
                let mut out = one_line(spans);
                let ws = wrap_text(text.as_str(), width.saturating_sub(2));
                push_indented(&mut out, &ws, "  ", StyleRole::Text);
                proof {
                    assert(lines_view(out@) =~~= message_lines(*self, width as nat));
                }
                out
            },
            Message::ToolCall { id: _, name, arguments, result, ok, duration_ms, expanded } => {
                let (icon, st) = match ok {
                    Some(true) => ("✓", StyleRole::Success),
                    Some(false) => ("✗", StyleRole::Error),
                    None => ("⟳", StyleRole::Warning),
                };
                let dur = match duration_ms {
                    Some(d) => {
                        let digits = decimal_of(*d);
                        String::from_str(" ").concat(string_of(&digits).as_str()).concat("ms")
                    },
                    None => String::new(),
                };
                let mut spans: Vec<StyledSpan> = Vec::new();
                spans.push(span(String::from_str("  ").concat(icon).concat(" "), st));
                spans.push(span(name.clone(), StyleRole::Info));
                spans.push(span(dur, StyleRole::TextSubtle));
                spans.push(span(String::from_str(" [tab to expand]"), StyleRole::TextFaint));
                let mut out = one_line(spans);
                let ghost hdr = seq![
                    ("  "@ + tool_status(*ok).0 + " "@, tool_status(*ok).1),
                    (name@, StyleRole::Info),
                    (duration_label(*duration_ms), StyleRole::TextSubtle),
                    (" [tab to expand]"@, StyleRole::TextFaint),
                ];
                assert(lines_view(out@) =~~= seq![hdr]);
                if *expanded {
                    let mut l1: Vec<StyledSpan> = Vec::new();
                    l1.push(span(String::from_str("    args:"), StyleRole::TextSubtle));
                    let mut args_head = one_line(l1);
                    let ghost o1 = out@;
                    let ghost a1 = args_head@;
                    out.append(&mut args_head);
                    assert(out@ =~= o1 + a1);
                    assert(lines_view(out@) =~= lines_view(o1) + lines_view(a1));
                    let ws = wrap_text(arguments.as_str(), width.saturating_sub(8));
                    push_indented(&mut out, &ws, "      ", StyleRole::SyntaxString);
                    let ghost after_args = lines_view(out@);
                    assert(after_args =~~= seq![hdr] + (seq![seq![("    args:"@, StyleRole::TextSubtle)]] + indented(
                        wrapped(arguments@, width_after(width as nat, 8)),
                        "      "@,
                        StyleRole::SyntaxString,
                    )));
                    match result {
                        Some(r) => {
                            let mut l2: Vec<StyledSpan> = Vec::new();
                            l2.push(span(String::from_str("    result:"), StyleRole::TextSubtle));
                            let mut res_head = one_line(l2);
                            let ghost o2 = out@;
                            let ghost a2 = res_head@;
                            out.append(&mut res_head);
                            assert(out@ =~= o2 + a2);
                            assert(lines_view(out@) =~= lines_view(o2) + lines_view(a2));
                            let rs = wrap_text(r.as_str(), width.saturating_sub(8));
                            push_indented(&mut out, &rs, "      ", StyleRole::TextMuted);
                            assert(lines_view(out@) =~~= after_args + (seq![seq![("    result:"@, StyleRole::TextSubtle)]] + indented(
                                wrapped(r@, width_after(width as nat, 8)),
                                "      "@,
                                StyleRole::TextMuted,
                            )));
                        },
                        None => {},
                    }
                }
                proof {
                    assert(lines_view(out@) =~~= message_lines(*self, width as nat));
                }
                out
            },
            Message::System { text, kind } => {
                let (icon, st) = match kind {
                    SystemKind::Info => ("ℹ", StyleRole::Info),
                    SystemKind::Success => ("✓", StyleRole::Success),
                    SystemKind::Warning => ("⚠", StyleRole::Warning),
                    SystemKind::Error => ("✗", StyleRole::Error),
                };
                let ws = wrap_text(text.as_str(), width.saturating_sub(4));
                proof {
                    law_wrapped_lines_fit_or_whole(text@, width_after(width as nat, 4));
                }
                let mut spans: Vec<StyledSpan> = Vec::new();
                spans.push(span(String::from_str("  ").concat(icon).concat(" "), st));
                spans.push(span(ws[0].clone(), st));
                let mut out = one_line(spans);
                let mut tail: Vec<String> = Vec::new();
                let mut k: usize = 1;
                while k < ws.len()
                    invariant
                        1 <= k <= ws@.len(),
                        tail@.map_values(|s: String| s@) == ws@.map_values(|s: String| s@).subrange(
                            1,
                            k as int,
                        ),
                    decreases ws.len() - k,
                {
                    let ghost b = tail@.map_values(|s: String| s@);
                    tail.push(ws[k].clone());
                    assert(tail@.map_values(|s: String| s@) =~= b.push(ws@[k as int]@));
                    k = k + 1;
                }
                push_indented(&mut out, &tail, "    ", st);
                proof {
                    assert(tail@.map_values(|s: String| s@) =~= ws@.map_values(
                        |s: String| s@,
                    ).drop_first());
                    assert(lines_view(out@) =~~= message_lines(*self, width as nat));
                }
                out
            },
            Message::Divider { label } => {
                let mut spans: Vec<StyledSpan> = Vec::new();
                spans.push(span(String::from_str("───"), StyleRole::TextFaint));
                spans.push(
                    span(String::from_str(" ").concat(label.as_str()).concat(" "), StyleRole::TextSubtle),
                );
                spans.push(span(String::from_str("───"), StyleRole::TextFaint));
                let out = one_line(spans);
                proof {
                    assert(lines_view(out@) =~~= message_lines(*self, width as nat));
                }
                out
            },
        }
    }
}

/// How many of the lines are empty.
pub open spec fn empty_count(lines: Seq<Seq<char>>) -> nat
    decreases lines.len(),
{
    if lines.len() == 0 {
        0
    } else {
        (if lines[0].len() == 0 {
            1nat
        } else {
            0nat
        }) + empty_count(lines.drop_first())
    }
}

proof fn lemma_empty_count_add(a: Seq<Seq<char>>, b: Seq<Seq<char>>)
    ensures
        empty_count(a + b) == empty_count(a) + empty_count(b),
    decreases a.len(),
{
    if a.len() == 0 {
        assert(a + b =~= b);
    } else {
        assert((a + b).drop_first() =~= a.drop_first() + b);
        assert((a + b)[0] == a[0]);
        lemma_empty_count_add(a.drop_first(), b);
    }
}

proof fn lemma_empty_count_none(lines: Seq<Seq<char>>)
    requires
        forall|i: int| 0 <= i < lines.len() ==> (#[trigger] lines[i]).len() > 0,
    ensures
        empty_count(lines) == 0,
    decreases lines.len(),
{
    if lines.len() > 0 {
        assert forall|i: int| 0 <= i < lines.drop_first().len() implies (
        #[trigger] lines.drop_first()[i]).len() > 0 by {
            assert(lines.drop_first()[i] == lines[i + 1]);
        }
        lemma_empty_count_none(lines.drop_first());
    }
}

proof fn lemma_words_from_nonempty(s: Seq<char>, cur: Seq<char>)
    ensures
        forall|i: int| 0 <= i < words_from(s, cur).len() ==> (#[trigger] words_from(s, cur)[i]).len() > 0,
    decreases s.len(),
{
    if s.len() == 0 {
        if cur.len() > 0 {
            assert(words_from(s, cur) == seq![cur]);
        } else {
            assert(words_from(s, cur) == Seq::<Seq<char>>::empty());
        }
    } else {
        if is_unicode_ws(s[0]) {
            lemma_words_from_nonempty(s.drop_first(), Seq::empty());
            let head = if cur.len() > 0 {
                seq![cur]
            } else {
                Seq::<Seq<char>>::empty()
            };
            let tail = words_from(s.drop_first(), Seq::empty());
            assert(words_from(s, cur) == head + tail);
            assert forall|i: int| 0 <= i < words_from(s, cur).len() implies (
            #[trigger] words_from(s, cur)[i]).len() > 0 by {
                if i < head.len() {
                    assert(words_from(s, cur)[i] == head[i]);
                } else {
                    assert(words_from(s, cur)[i] == tail[i - head.len()]);
                }
            }
        } else {
            lemma_words_from_nonempty(s.drop_first(), cur.push(s[0]));
            assert(words_from(s, cur) == words_from(s.drop_first(), cur.push(s[0])));
        }
    }
}

proof fn lemma_fill_nonempty(ws: Seq<Seq<char>>, current: Seq<char>, max: nat)
    requires
        forall|i: int| 0 <= i < ws.len() ==> (#[trigger] ws[i]).len() > 0,
    ensures
        forall|i: int| 0 <= i < fill(ws, current, max).len() ==> (#[trigger] fill(ws, current, max)[i]).len() > 0,
    decreases ws.len(),
{
    if ws.len() == 0 {
        if current.len() > 0 {
            assert(fill(ws, current, max) == seq![current]);
        } else {
            assert(fill(ws, current, max) == Seq::<Seq<char>>::empty());
        }
    } else {
        let rest = ws.drop_first();
        assert forall|i: int| 0 <= i < rest.len() implies (#[trigger] rest[i]).len() > 0 by {
            assert(rest[i] == ws[i + 1]);
        }
        assert(ws[0].len() > 0);
        if current.len() == 0 {
            lemma_fill_nonempty(rest, ws[0], max);
            assert(fill(ws, current, max) == fill(rest, ws[0], max));
        } else if byte_len(current) + 1 + byte_len(ws[0]) <= max {
            lemma_fill_nonempty(rest, current + seq![' '] + ws[0], max);
            assert(fill(ws, current, max) == fill(rest, current + seq![' '] + ws[0], max));
        } else {
            lemma_fill_nonempty(rest, ws[0], max);
            let tail = fill(rest, ws[0], max);
            assert(fill(ws, current, max) == seq![current] + tail);
            assert forall|i: int| 0 <= i < fill(ws, current, max).len() implies (
            #[trigger] fill(ws, current, max)[i]).len() > 0 by {
                if i == 0 {
                    assert(fill(ws, current, max)[0] == current);
                } else {
                    assert(fill(ws, current, max)[i] == tail[i - 1]);
                }
            }
        }
    }
}

proof fn lemma_wrap_paragraphs_empty_count(ps: Seq<Seq<char>>, max: nat)
    ensures
        empty_count(wrap_paragraphs(ps, max)) == empty_count(ps),
    decreases ps.len(),
{
    if ps.len() > 0 {
        lemma_wrap_paragraphs_empty_count(ps.drop_first(), max);
        let head = if ps[0].len() == 0 {
            seq![Seq::<char>::empty()]
        } else {
            fill(words(ps[0]), Seq::empty(), max)
        };
        lemma_empty_count_add(head, wrap_paragraphs(ps.drop_first(), max));
        assert(wrap_paragraphs(ps, max) == head + wrap_paragraphs(ps.drop_first(), max));
        assert(empty_count(ps) == (if ps[0].len() == 0 {
            1nat
        } else {
            0nat
        }) + empty_count(ps.drop_first()));
        if ps[0].len() == 0 {
            assert(seq![Seq::<char>::empty()].drop_first() =~= Seq::<Seq<char>>::empty());
            assert(empty_count(Seq::<Seq<char>>::empty()) == 0);
            assert(empty_count(head) == 1);
        } else {
            lemma_words_from_nonempty(ps[0], Seq::empty());
            lemma_fill_nonempty(words(ps[0]), Seq::empty(), max);
            lemma_empty_count_none(head);
        }
    }
}

/// Every empty line of a text (an empty piece between line feeds, such as
/// the blank line between two paragraphs) stands in the wrapped text as an
/// empty line of its own: the wrapped lines hold at least as many empty
/// lines as the text has empty pieces.
pub proof fn law_empty_lines_are_kept(text: Seq<char>, max: nat)
    requires
        max > 0,
    ensures
        empty_count(wrapped(text, max)) >= empty_count(paragraphs(text)),
{
    lemma_wrap_paragraphs_empty_count(paragraphs(text), max);
    let r = wrap_paragraphs(paragraphs(text), max);
    if r.len() == 0 {
        assert(empty_count(r) == 0);
    }
}

/// Wrapping always gives at least one line, whatever the width.
pub proof fn law_wrapped_lines_fit_or_whole(text: Seq<char>, max: nat)
    ensures
        wrapped(text, max).len() >= 1,
{
    if max > 0 {
        law_wrapped_lines_fit(text, max);
    }
}


// ---------------------------------------------------------------------------
// Message log: bounded and scrollable
// ---------------------------------------------------------------------------

fn str_byte_len(s: &String) -> (n: u128)
    ensures
        n == byte_len(s@),
        n <= 4 * (usize::MAX as int),
{
    let chars = chars_of(s.as_str());
    assert(chars.len() <= usize::MAX);
    byte_len_of(&chars)
}

impl Message {
    /// The number of text bytes a message counts for scroll estimates.
    pub open spec fn text_bytes(&self) -> nat {
        match *self {
            Message::User { text } => byte_len(text@),
            Message::Assistant { text, .. } => byte_len(text@),
            Message::System { text, .. } => byte_len(text@),
            Message::ToolCall { name, arguments, result, .. } => byte_len(name@) + byte_len(
                arguments@,
            ) + match result {
                Some(r) => byte_len(r@),
                None => 0nat,
            } + 20,
            Message::Divider { label } => byte_len(label@) + 6,
        }
    }

    /// Approximate number of terminal lines the message occupies at the
    /// given width: one per `width` bytes of text (at least one), plus one.
    pub fn estimated_lines(&self, width: usize) -> (n: usize)
        requires
            self.text_bytes() < usize::MAX,
        ensures
            n == ({
                let q = self.text_bytes() / (if width == 0 {
                    1
                } else {
                    width as nat
                });
                if q >= 1 {
                    q
                } else {
                    1
                }
            }) + 1,
    {
        let text_len: u128 = match self {
            Message::User { text } => str_byte_len(text),
            Message::Assistant { text, .. } => str_byte_len(text),
            Message::System { text, .. } => str_byte_len(text),
            Message::ToolCall { name, arguments, result, .. } => {
                let r = match result {
                    Some(r) => str_byte_len(r),
                    None => 0,
                };
                str_byte_len(name) + str_byte_len(arguments) + r + 20
            },
            Message::Divider { label } => str_byte_len(label) + 6,
        };
        let chars_per_line: u128 = if width == 0 {
            1
        } else {
            width as u128
        };
        let q = text_len / chars_per_line;
        let lines = if q >= 1 {
            q
        } else {
            1
        };
        (lines + 1) as usize
    }
}

/// A bounded, scrollable log of conversation messages.
pub struct MessageLog {
    pub messages: VecDeque<Message>,
    /// Maximum messages retained.
    pub capacity: usize,
    /// Scroll offset from the bottom (0 = pinned to the latest message).
    pub scroll_offset: usize,
}

/// `usize::saturating_sub(len, 1)`.
pub open spec fn last_index(len: nat) -> nat {
    if len > 0 {
        (len - 1) as nat
    } else {
        0
    }
}

/// The log's contents after pushing `m` onto `msgs` under `capacity`.
pub open spec fn pushed<A>(msgs: Seq<A>, capacity: nat, m: A) -> Seq<A> {
    if msgs.len() >= capacity && msgs.len() > 0 {
        msgs.drop_first().push(m)
    } else {
        msgs.push(m)
    }
}

/// A message as plain values.
pub enum MessageView {
    User { text: Seq<char> },
    Assistant { text: Seq<char>, streaming: bool },
    ToolCall {
        id: Seq<char>,
        name: Seq<char>,
        arguments: Seq<char>,
        result: Option<Seq<char>>,
        ok: Option<bool>,
        duration_ms: Option<u64>,
        expanded: bool,
    },
    System { text: Seq<char>, kind: SystemKind },
    Divider { label: Seq<char> },
}

impl Message {
    pub open spec fn view(&self) -> MessageView {
        match *self {
            Message::User { text } => MessageView::User { text: text@ },
            Message::Assistant { text, streaming } => MessageView::Assistant {
                text: text@,
                streaming,
            },
            Message::ToolCall { id, name, arguments, result, ok, duration_ms, expanded } =>
                MessageView::ToolCall {
                id: id@,
                name: name@,
                arguments: arguments@,
                result: match result {
                    Some(r) => Some(r@),
                    None => None,
                },
                ok,
                duration_ms,
                expanded,
            },
            Message::System { text, kind } => MessageView::System { text: text@, kind },
            Message::Divider { label } => MessageView::Divider { label: label@ },
        }
    }
}

/// The views of a sequence of messages.
pub open spec fn messages_view(msgs: Seq<Message>) -> Seq<MessageView> {
    msgs.map_values(|m: Message| m.view())
}

pub proof fn lemma_pushed_view(msgs: Seq<Message>, capacity: nat, m: Message)
    ensures
        messages_view(pushed(msgs, capacity, m)) == pushed(messages_view(msgs), capacity, m.view()),
{
    if msgs.len() >= capacity && msgs.len() > 0 {
        assert(messages_view(pushed(msgs, capacity, m)) =~= pushed(
            messages_view(msgs),
            capacity,
            m.view(),
        ));
    } else {
        assert(messages_view(pushed(msgs, capacity, m)) =~= pushed(
            messages_view(msgs),
            capacity,
            m.view(),
        ));
    }
}

impl MessageLog {
    /// The log's invariant: it holds at most `capacity` messages (at least
    /// the newest one), and the scroll offset stays within it.
    pub open spec fn wf(&self) -> bool {
        &&& self.messages@.len() <= if self.capacity >= 1 {
            self.capacity as nat
        } else {
            1
        }
        &&& self.scroll_offset <= last_index(self.messages@.len())
    }

    pub fn new(capacity: usize) -> (log: Self)
        ensures
            log.wf(),
            log.messages@.len() == 0,
            log.capacity == capacity,
            log.scroll_offset == 0,
    {
        MessageLog { messages: VecDeque::new(), capacity, scroll_offset: 0 }
    }

    /// Push a message, evicting the oldest when full, and follow it.
    pub fn push(&mut self, msg: Message)
        requires
            old(self).wf(),
        ensures
            final(self).wf(),
            final(self).messages@ == pushed(old(self).messages@, old(self).capacity as nat, msg),
            final(self).capacity == old(self).capacity,
            final(self).scroll_offset == 0,
    {
        let ghost m0 = self.messages@;
        if self.messages.len() >= self.capacity && self.messages.len() > 0 {
            self.messages.pop_front();
            assert(self.messages@ =~= m0.drop_first());
        }
        self.messages.push_back(msg);
        self.scroll_offset = 0;
    }

    /// Scroll up (toward older messages), stopping at the oldest.
    pub fn scroll_up(&mut self)
        requires
            old(self).wf(),
        ensures
            final(self).wf(),
            final(self).messages == old(self).messages,
            final(self).capacity == old(self).capacity,
            final(self).scroll_offset == if old(self).scroll_offset < last_index(
                old(self).messages@.len(),
            ) {
                old(self).scroll_offset + 1
            } else {
                old(self).scroll_offset as int
            },
    {
        let len = self.messages.len();
        if self.scroll_offset < len.saturating_sub(1) {
            self.scroll_offset = self.scroll_offset + 1;
        }
    }

    /// Scroll down (toward newer messages), stopping at the newest.
    pub fn scroll_down(&mut self)
        requires
            old(self).wf(),
        ensures
            final(self).wf(),
            final(self).messages == old(self).messages,
            final(self).capacity == old(self).capacity,
            final(self).scroll_offset == if old(self).scroll_offset > 0 {
                old(self).scroll_offset - 1
            } else {
                0
            },
    {
        if self.scroll_offset > 0 {
            self.scroll_offset = self.scroll_offset - 1;
        }
    }

    /// Jump to the latest message.
    pub fn scroll_to_bottom(&mut self)
        requires
            old(self).wf(),
        ensures
            final(self).wf(),
            final(self).messages == old(self).messages,
            final(self).capacity == old(self).capacity,
            final(self).scroll_offset == 0,
    {
        self.scroll_offset = 0;
    }

    /// Whether the view is pinned to the latest message.
    pub fn at_bottom(&self) -> (r: bool)
        ensures
            r == (self.scroll_offset == 0),
    {
        self.scroll_offset == 0
    }

    /// Number of messages.
    pub fn len(&self) -> (n: usize)
        ensures
            n == self.messages@.len(),
    {
        self.messages.len()
    }

    /// Whether the log is empty.
    pub fn is_empty(&self) -> (r: bool)
        ensures
            r == (self.messages@.len() == 0),
    {
        self.messages.len() == 0
    }

    /// Render all messages into lines, oldest first.
    pub fn to_lines(&self, width: usize) -> (lines: Vec<StyledLine>)
        ensures
            lines_view(lines@) == log_lines(self.messages@, width as nat),
    {
        let mut out: Vec<StyledLine> = Vec::new();
        let mut i: usize = 0;
        while i < self.messages.len()
            invariant
                i <= self.messages@.len(),
                lines_view(out@) == log_lines(self.messages@.subrange(0, i as int), width as nat),
            decreases self.messages@.len() - i,
        {
            let mut more = self.messages[i].to_lines(width);
            let ghost o = out@;
            let ghost m = more@;
            out.append(&mut more);
            proof {
                assert(out@ =~= o + m);
                assert(lines_view(out@) =~= lines_view(o) + lines_view(m));
                let sub = self.messages@.subrange(0, i + 1);
                assert(sub.drop_last() =~= self.messages@.subrange(0, i as int));
            }
            i = i + 1;
        }
        assert(self.messages@.subrange(0, i as int) =~= self.messages@);
        out
    }
}

/// The lines of all messages, oldest first.
pub open spec fn log_lines(msgs: Seq<Message>, width: nat) -> Seq<Seq<(Seq<char>, StyleRole)>>
    decreases msgs.len(),
{
    if msgs.len() == 0 {
        Seq::empty()
    } else {
        log_lines(msgs.drop_last(), width) + message_lines(msgs.last(), width)
    }
}

/// Pushing keeps the log within its capacity, makes the new message the
/// newest one, and keeps the older messages in order, dropping the oldest
/// only when the log was full.
pub proof fn law_push_bounded(msgs: Seq<Message>, capacity: nat, m: Message)
    requires
        msgs.len() <= if capacity >= 1 {
            capacity
        } else {
            1
        },
    ensures
        ({
            let r = pushed(msgs, capacity, m);
            &&& r.len() <= if capacity >= 1 {
                capacity
            } else {
                1
            }
            &&& r.last() == m
            &&& msgs.len() < capacity ==> r.drop_last() == msgs
            &&& msgs.len() >= capacity && msgs.len() > 0 ==> r.drop_last() == msgs.drop_first()
        }),
{
    let r = pushed(msgs, capacity, m);
    if msgs.len() >= capacity && msgs.len() > 0 {
        assert(r.drop_last() =~= msgs.drop_first());
    } else {
        assert(r.drop_last() =~= msgs);
    }
}

/// The lines of the log shown in a pane of `height` lines, as a range
/// `start..end`: all of them when they fit; otherwise the `height` lines
/// that end `scroll` lines above the last one.
pub fn visible_range(total: usize, scroll: usize, height: usize) -> (r: (usize, usize))
    ensures
        total <= height ==> r == (0usize, total),
        total > height ==> {
            let end = if scroll <= total { total - scroll } else { 0 };
            let start = if height <= end { end - height } else { 0 };
            r == (start as usize, end as usize)
        },
        r.0 <= r.1 <= total,
{
    if total <= height {
        (0, total)
    } else {
        let end = total.saturating_sub(scroll);
        let start = end.saturating_sub(height);
        (start, end)
    }
}


} // verus!
