//! The single-line text editor of the terminal's bottom bar: cursor movement,
//! history and slash-command suggestions.
//!
//! The buffer is held as characters and the cursor as a character position;
//! `cursor_byte_offset` gives the byte offset into the UTF-8 text.

use std::collections::VecDeque;

use vstd::prelude::*;

use crate::text::{
    byte_len, char_utf8_width, chars_of, is_ascii_whitespace_char, is_ascii_ws, starts_with_chars,
    string_of, trim, trim_chars, is_blank,
};

verus! {

/// Number of submitted entries the history keeps.
pub const HISTORY_CAPACITY: usize = 100;

/// Number of slash-command suggestions shown at most.
pub const MAX_SUGGESTIONS: usize = 5;

/// The known slash commands (name, short description).
pub const SLASH_COMMANDS: [(&'static str, &'static str); 9] = [
    ("help", "show keyboard shortcuts and commands"),
    ("run", "execute an objective"),
    ("plan", "plan without write side effects"),
    ("model", "show or change the active model"),
    ("tools", "list available tools"),
    ("sessions", "list sessions"),
    ("clear", "clear the conversation"),
    ("theme", "switch between dark and light themes"),
    ("quit", "exit chimera"),
];

/// The slash-command table as (name, description) character sequences.
pub open spec fn slash_table() -> Seq<(Seq<char>, Seq<char>)> {
    Seq::new(9, |i: int| (SLASH_COMMANDS[i].0@, SLASH_COMMANDS[i].1@))
}

/// The text of one suggestion: `/{name} — {desc}`.
pub open spec fn suggestion_text(entry: (Seq<char>, Seq<char>)) -> Seq<char> {
    "/"@ + entry.0 + " — "@ + entry.1
}

/// The suggestions for `prefix`: the entries whose name starts with
/// `prefix`, in table order, at most `limit` of them.
pub open spec fn suggestions_from(
    entries: Seq<(Seq<char>, Seq<char>)>,
    prefix: Seq<char>,
    limit: nat,
) -> Seq<Seq<char>>
    decreases entries.len(),
{
    if entries.len() == 0 || limit == 0 {
        Seq::empty()
    } else if prefix.is_prefix_of(entries[0].0) {
        seq![suggestion_text(entries[0])] + suggestions_from(
            entries.drop_first(),
            prefix,
            (limit - 1) as nat,
        )
    } else {
        suggestions_from(entries.drop_first(), prefix, limit)
    }
}

/// The suggestions the editor shows for a buffer.
pub open spec fn suggestions_for(buffer: Seq<char>) -> Seq<Seq<char>> {
    if buffer.len() > 0 && buffer[0] == '/' {
        suggestions_from(slash_table(), buffer.drop_first(), MAX_SUGGESTIONS as nat)
    } else {
        Seq::empty()
    }
}

/// The buffer with `c` inserted at position `cur`.
pub open spec fn inserted(buf: Seq<char>, cur: int, c: char) -> Seq<char> {
    buf.subrange(0, cur) + seq![c] + buf.subrange(cur, buf.len() as int)
}

/// The buffer with the character at position `pos` removed.
pub open spec fn removed(buf: Seq<char>, pos: int) -> Seq<char> {
    buf.subrange(0, pos) + buf.subrange(pos + 1, buf.len() as int)
}

/// From `pos`, move left while the character before is (`ws`) or is not
/// (`!ws`) ASCII whitespace.
pub open spec fn skip_left(s: Seq<char>, pos: int, ws: bool) -> int
    decreases pos,
{
    if 0 < pos <= s.len() && is_ascii_ws(s[pos - 1]) == ws {
        skip_left(s, pos - 1, ws)
    } else {
        pos
    }
}

/// From `pos`, move right while the character at the position is (`ws`) or
/// is not (`!ws`) ASCII whitespace.
pub open spec fn skip_right(s: Seq<char>, pos: int, ws: bool) -> int
    decreases s.len() - pos,
{
    if 0 <= pos < s.len() && is_ascii_ws(s[pos]) == ws {
        skip_right(s, pos + 1, ws)
    } else {
        pos
    }
}

/// Start of the word left of `pos`: skip whitespace, then word characters.
pub open spec fn word_left(s: Seq<char>, pos: int) -> int {
    skip_left(s, skip_left(s, pos, true), false)
}

/// Start of the next word right of `pos`: skip word characters, then
/// whitespace.
pub open spec fn word_right(s: Seq<char>, pos: int) -> int {
    skip_right(s, skip_right(s, pos, false), true)
}

proof fn lemma_skip_left_bounds(s: Seq<char>, pos: int, ws: bool)
    requires
        0 <= pos <= s.len(),
    ensures
        0 <= skip_left(s, pos, ws) <= pos,
    decreases pos,
{
    if 0 < pos && is_ascii_ws(s[pos - 1]) == ws {
        lemma_skip_left_bounds(s, pos - 1, ws);
    }
}

proof fn lemma_skip_right_bounds(s: Seq<char>, pos: int, ws: bool)
    requires
        0 <= pos <= s.len(),
    ensures
        pos <= skip_right(s, pos, ws) <= s.len(),
    decreases s.len() - pos,
{
    if pos < s.len() && is_ascii_ws(s[pos]) == ws {
        lemma_skip_right_bounds(s, pos + 1, ws);
    }
}

/// `str::trim_start_matches('/')`.
pub open spec fn strip_slashes(s: Seq<char>) -> Seq<char>
    decreases s.len(),
{
    if s.len() > 0 && s[0] == '/' {
        strip_slashes(s.drop_first())
    } else {
        s
    }
}

/// Position of the first occurrence of `c` in `s`, or `s.len()` if none.
pub open spec fn find_char(s: Seq<char>, c: char) -> int
    decreases s.len(),
{
    if s.len() == 0 {
        0
    } else if s[0] == c {
        0
    } else {
        1 + find_char(s.drop_first(), c)
    }
}

/// `find_char` gives the first occurrence, or the length when there is none.
pub proof fn lemma_find_char(s: Seq<char>, c: char)
    ensures
        0 <= find_char(s, c) <= s.len(),
        forall|i: int| 0 <= i < find_char(s, c) ==> s[i] != c,
        find_char(s, c) < s.len() ==> s[find_char(s, c)] == c,
    decreases s.len(),
{
    if s.len() > 0 && s[0] != c {
        lemma_find_char(s.drop_first(), c);
        assert forall|i: int| 0 <= i < find_char(s, c) implies s[i] != c by {
            if i > 0 {
                assert(s[i] == s.drop_first()[i - 1]);
            }
        }
    }
}

proof fn lemma_strip_slashes_skip(s: Seq<char>, i: int)
    requires
        0 <= i < s.len(),
        s[i] == '/',
    ensures
        strip_slashes(s.skip(i)) == strip_slashes(s.skip(i + 1)),
{
    assert(s.skip(i).drop_first() =~= s.skip(i + 1));
}

/// The parsed form of a slash command: the name is the text up to the first
/// space (after the leading slashes), the arguments the trimmed rest.
pub open spec fn parsed_command(buffer: Seq<char>) -> Option<(Seq<char>, Seq<char>)> {
    let t = strip_slashes(buffer);
    let k = find_char(t, ' ');
    let name = t.subrange(0, k);
    let rest = if k < t.len() {
        t.subrange(k + 1, t.len() as int)
    } else {
        Seq::empty()
    };
    if name.len() == 0 {
        None
    } else {
        Some((name, trim(rest)))
    }
}

/// The history after submitting `text`: non-blank text becomes the newest
/// entry, the oldest one dropped when the history is full.
pub open spec fn submitted_history(history: Seq<Seq<char>>, text: Seq<char>) -> Seq<Seq<char>> {
    if is_blank(text) {
        history
    } else if history.len() >= HISTORY_CAPACITY {
        history.drop_first().push(text)
    } else {
        history.push(text)
    }
}

/// What `unicode_width::UnicodeWidthChar::width` gives for a character: its
/// display width in columns, `None` for a control character.
pub uninterp spec fn unicode_width(c: char) -> Option<usize>;

/// `unicode_width::UnicodeWidthChar::width`. Claimed: the result is
/// `unicode_width(c)`; printable ASCII is one column wide; no character is
/// wider than 3 columns (what `unicode-width`'s tables hold).
#[verifier::external_body]
fn char_width(c: char) -> (w: Option<usize>)
    ensures
        w == unicode_width(c),
        0x20 <= (c as u32) < 0x7f ==> w == Some(1usize),
        w matches Some(n) ==> n <= 3,
{
    unicode_width::UnicodeWidthChar::width(c)
}

/// The terminal width of a text: the sum of its characters' widths, control
/// characters counting as nothing.
pub open spec fn display_cols(s: Seq<char>) -> nat
    decreases s.len(),
{
    if s.len() == 0 {
        0
    } else {
        display_cols(s.drop_last()) + match unicode_width(s.last()) {
            Some(w) => w as nat,
            None => 0,
        }
    }
}

/// The text editor state.
pub struct InputBar {
    /// Buffer content, as characters.
    pub buffer: Vec<char>,
    /// Cursor position, in characters from the start of the buffer.
    pub cursor: usize,
    /// Command history (most recent last).
    pub history: VecDeque<String>,
    /// Current position in history navigation (`None` = composing new).
    pub history_pos: Option<usize>,
    /// Whether the input is focused.
    pub focused: bool,
    /// Slash-command suggestions for the current buffer.
    pub suggestions: Vec<String>,
}

/// Whether a character sequence fits the byte arithmetic of the editor.
pub open spec fn fits(s: Seq<char>) -> bool {
    4 * s.len() <= usize::MAX
}

impl InputBar {
    /// The editor's invariant.
    pub open spec fn wf(&self) -> bool {
        &&& self.cursor <= self.buffer@.len()
        &&& fits(self.buffer@)
        &&& self.history@.len() <= HISTORY_CAPACITY
        &&& forall|i: int| 0 <= i < self.history@.len() ==> fits(#[trigger] self.history@[i]@)
        &&& self.history_pos matches Some(p) ==> p < self.history@.len()
    }

    /// The suggestions as character sequences.
    pub open spec fn suggestions_view(&self) -> Seq<Seq<char>> {
        self.suggestions@.map_values(|s: String| s@)
    }

    /// The history as character sequences.
    pub open spec fn history_view(&self) -> Seq<Seq<char>> {
        self.history@.map_values(|s: String| s@)
    }

    pub fn new() -> (r: Self)
        ensures
            r.wf(),
            r.buffer@ == Seq::<char>::empty(),
            r.cursor == 0,
            r.history@.len() == 0,
            r.history_pos is None,
            r.focused,
            r.suggestions@.len() == 0,
    {
        InputBar {
            buffer: Vec::new(),
            cursor: 0,
            history: VecDeque::with_capacity(HISTORY_CAPACITY),
            history_pos: None,
            focused: true,
            suggestions: Vec::new(),
        }
    }

    /// Current input text.
    pub fn text(&self) -> (t: String)
        ensures
            t@ == self.buffer@,
    {
        string_of(&self.buffer)
    }

    /// Is the buffer empty?
    pub fn is_empty(&self) -> (r: bool)
        ensures
            r == (self.buffer@.len() == 0),
    {
        self.buffer.len() == 0
    }

    /// Byte offset of the cursor into the UTF-8 text.
    pub fn cursor_byte_offset(&self) -> (off: usize)
        requires
            self.wf(),
        ensures
            off == byte_len(self.buffer@.subrange(0, self.cursor as int)),
    {
        let mut off: usize = 0;
        let mut i: usize = 0;
        while i < self.cursor
            invariant
                self.wf(),
                i <= self.cursor,
                off == byte_len(self.buffer@.subrange(0, i as int)),
                off <= 4 * i,
            decreases self.cursor - i,
        {
            proof {
                let s = self.buffer@.subrange(0, i + 1);
                assert(s.drop_last() =~= self.buffer@.subrange(0, i as int));
            }
            off = off + char_utf8_width(self.buffer[i]);
            i = i + 1;
        }
        off
    }

    /// Display column of the cursor: the terminal width of the text before
    /// it, control characters counting as nothing.
    pub fn cursor_display_offset(&self) -> (cols: usize)
        requires
            self.wf(),
        ensures
            cols == display_cols(self.buffer@.subrange(0, self.cursor as int)),
    {
        let mut cols: usize = 0;
        let mut i: usize = 0;
        while i < self.cursor
            invariant
                self.wf(),
                i <= self.cursor,
                cols == display_cols(self.buffer@.subrange(0, i as int)),
                cols <= 3 * i,
            decreases self.cursor - i,
        {
            proof {
                let s = self.buffer@.subrange(0, i + 1);
                assert(s.drop_last() =~= self.buffer@.subrange(0, i as int));
            }
            let w = match char_width(self.buffer[i]) {
                Some(w) => w,
                None => 0,
            };
            cols = cols + w;
            i = i + 1;
        }
        cols
    }

    /// Refresh the suggestions from the buffer.
    fn update_suggestions(&mut self)
        ensures
            final(self).buffer == old(self).buffer,
            final(self).cursor == old(self).cursor,
            final(self).history == old(self).history,
            final(self).history_pos == old(self).history_pos,
            final(self).focused == old(self).focused,
            final(self).suggestions_view() == suggestions_for(final(self).buffer@),
    {
        let mut out: Vec<String> = Vec::new();
        if self.buffer.len() > 0 && self.buffer[0] == '/' {
            let mut prefix: Vec<char> = Vec::new();
            let mut k: usize = 1;
            while k < self.buffer.len()
                invariant
                    1 <= k <= self.buffer@.len(),
                    prefix@ == self.buffer@.subrange(1, k as int),
                decreases self.buffer.len() - k,
            {
                prefix.push(self.buffer[k]);
                k = k + 1;
            }
            assert(prefix@ =~= self.buffer@.drop_first());
            let ghost table = slash_table();
            let ghost full = suggestions_from(table, prefix@, MAX_SUGGESTIONS as nat);
            let mut i: usize = 0;
            assert(table.skip(0) =~= table);
            assert(out@.map_values(|s: String| s@) =~= Seq::<Seq<char>>::empty());
            while i < 9 && out.len() < MAX_SUGGESTIONS
                invariant
                    i <= 9,
                    out@.len() <= MAX_SUGGESTIONS,
                    table == slash_table(),
                    full == suggestions_from(table, prefix@, MAX_SUGGESTIONS as nat),
                    out@.map_values(|s: String| s@) + suggestions_from(
                        table.skip(i as int),
                        prefix@,
                        (MAX_SUGGESTIONS - out@.len()) as nat,
                    ) == full,
                decreases 9 - i,
            {
                let (name, desc) = SLASH_COMMANDS[i];
                let name_chars = chars_of(name);
                let ghost rest = table.skip(i as int);
                assert(rest[0] == (name@, desc@));
                assert(rest.drop_first() =~= table.skip(i + 1));
                if starts_with_chars(&name_chars, &prefix) {
                    let s = String::from_str("/").concat(name).concat(" — ").concat(desc);
                    let ghost before = out@.map_values(|s: String| s@);
                    out.push(s);
                    assert(out@.map_values(|s: String| s@) =~= before.push(
                        suggestion_text((name@, desc@)),
                    ));
                    assert(out@.map_values(|s: String| s@) + suggestions_from(
                        table.skip(i + 1),
                        prefix@,
                        (MAX_SUGGESTIONS - out@.len()) as nat,
                    ) =~= before + suggestions_from(
                        rest,
                        prefix@,
                        (MAX_SUGGESTIONS - before.len()) as nat,
                    ));
                }
                i = i + 1;
            }
            proof {
                if i == 9 {
                    assert(table.skip(9).len() == 0);
                }
                assert(out@.map_values(|s: String| s@) =~= full);
            }
        }
        self.suggestions = out;
        assert(self.suggestions_view() =~= suggestions_for(self.buffer@));
    }

    /// Insert a character at the cursor.
    pub fn insert_char(&mut self, c: char)
        requires
            old(self).wf(),
            fits(old(self).buffer@.push(c)),
        ensures
            final(self).wf(),
            final(self).buffer@ == inserted(old(self).buffer@, old(self).cursor as int, c),
            final(self).cursor == old(self).cursor + 1,
            final(self).history == old(self).history,
            final(self).history_pos == old(self).history_pos,
            final(self).focused == old(self).focused,
            final(self).suggestions_view() == suggestions_for(final(self).buffer@),
    {
        self.buffer.insert(self.cursor, c);
        assert(self.buffer@ =~= inserted(old(self).buffer@, old(self).cursor as int, c));
        self.cursor = self.cursor + 1;
        self.update_suggestions();
    }

    /// Delete the character before the cursor.
    pub fn backspace(&mut self)
        requires
            old(self).wf(),
        ensures
            final(self).wf(),
            old(self).cursor > 0 ==> {
                &&& final(self).buffer@ == removed(old(self).buffer@, old(self).cursor - 1)
                &&& final(self).cursor == old(self).cursor - 1
                &&& final(self).suggestions_view() == suggestions_for(final(self).buffer@)
            },
            old(self).cursor == 0 ==> *final(self) == *old(self),
            final(self).history == old(self).history,
            final(self).history_pos == old(self).history_pos,
            final(self).focused == old(self).focused,
    {
        if self.cursor > 0 {
            let at = self.cursor - 1;
            self.buffer.remove(at);
            assert(self.buffer@ =~= removed(old(self).buffer@, at as int));
            self.cursor = at;
            self.update_suggestions();
        }
    }

    /// Delete the character at the cursor.
    pub fn delete_char(&mut self)
        requires
            old(self).wf(),
        ensures
            final(self).wf(),
            old(self).cursor < old(self).buffer@.len() ==> {
                &&& final(self).buffer@ == removed(old(self).buffer@, old(self).cursor as int)
                &&& final(self).suggestions_view() == suggestions_for(final(self).buffer@)
            },
            old(self).cursor == old(self).buffer@.len() ==> *final(self) == *old(self),
            final(self).cursor == old(self).cursor,
            final(self).history == old(self).history,
            final(self).history_pos == old(self).history_pos,
            final(self).focused == old(self).focused,
    {
        if self.cursor < self.buffer.len() {
            self.buffer.remove(self.cursor);
            assert(self.buffer@ =~= removed(old(self).buffer@, old(self).cursor as int));
            self.update_suggestions();
        }
    }

    /// Move the cursor left one character.
    pub fn cursor_left(&mut self)
        requires
            old(self).wf(),
        ensures
            final(self).wf(),
            final(self).cursor == if old(self).cursor > 0 {
                old(self).cursor - 1
            } else {
                0
            },
            final(self).buffer == old(self).buffer,
            final(self).history == old(self).history,
            final(self).history_pos == old(self).history_pos,
            final(self).focused == old(self).focused,
            final(self).suggestions == old(self).suggestions,
    {
        if self.cursor > 0 {
            self.cursor = self.cursor - 1;
        }
    }

    /// Move the cursor right one character.
    pub fn cursor_right(&mut self)
        requires
            old(self).wf(),
        ensures
            final(self).wf(),
            final(self).cursor == if old(self).cursor < old(self).buffer@.len() {
                old(self).cursor + 1
            } else {
                old(self).cursor as int
            },
            final(self).buffer == old(self).buffer,
            final(self).history == old(self).history,
            final(self).history_pos == old(self).history_pos,
            final(self).focused == old(self).focused,
            final(self).suggestions == old(self).suggestions,
    {
        if self.cursor < self.buffer.len() {
            self.cursor = self.cursor + 1;
        }
    }

    /// Move the cursor to the start.
    pub fn cursor_home(&mut self)
        requires
            old(self).wf(),
        ensures
            final(self).wf(),
            final(self).cursor == 0,
            final(self).buffer == old(self).buffer,
            final(self).history == old(self).history,
            final(self).history_pos == old(self).history_pos,
            final(self).focused == old(self).focused,
            final(self).suggestions == old(self).suggestions,
    {
        self.cursor = 0;
    }

    /// Move the cursor to the end.
    pub fn cursor_end(&mut self)
        requires
            old(self).wf(),
        ensures
            final(self).wf(),
            final(self).cursor == old(self).buffer@.len(),
            final(self).buffer == old(self).buffer,
            final(self).history == old(self).history,
            final(self).history_pos == old(self).history_pos,
            final(self).focused == old(self).focused,
            final(self).suggestions == old(self).suggestions,
    {
        self.cursor = self.buffer.len();
    }

    /// Move one word left: skip whitespace, then word characters.
    pub fn cursor_word_left(&mut self)
        requires
            old(self).wf(),
        ensures
            final(self).wf(),
            final(self).cursor == word_left(old(self).buffer@, old(self).cursor as int),
            final(self).buffer == old(self).buffer,
            final(self).history == old(self).history,
            final(self).history_pos == old(self).history_pos,
            final(self).focused == old(self).focused,
            final(self).suggestions == old(self).suggestions,
    {
        let ghost s = self.buffer@;
        let mut pos = self.cursor;
        while pos > 0 && is_ascii_whitespace_char(self.buffer[pos - 1])
            invariant
                s == self.buffer@,
                pos <= s.len(),
                skip_left(s, pos as int, true) == skip_left(s, old(self).cursor as int, true),
            decreases pos,
        {
            pos = pos - 1;
        }
        let ghost mid = pos;
        while pos > 0 && !is_ascii_whitespace_char(self.buffer[pos - 1])
            invariant
                s == self.buffer@,
                pos <= s.len(),
                mid == skip_left(s, old(self).cursor as int, true),
                skip_left(s, pos as int, false) == skip_left(s, mid as int, false),
            decreases pos,
        {
            pos = pos - 1;
        }
        self.cursor = pos;
    }

    /// Move one word right: skip word characters, then whitespace.
    pub fn cursor_word_right(&mut self)
        requires
            old(self).wf(),
        ensures
            final(self).wf(),
            final(self).cursor == word_right(old(self).buffer@, old(self).cursor as int),
            final(self).buffer == old(self).buffer,
            final(self).history == old(self).history,
            final(self).history_pos == old(self).history_pos,
            final(self).focused == old(self).focused,
            final(self).suggestions == old(self).suggestions,
    {
        let ghost s = self.buffer@;
        let mut pos = self.cursor;
        while pos < self.buffer.len() && !is_ascii_whitespace_char(self.buffer[pos])
            invariant
                s == self.buffer@,
                pos <= s.len(),
                skip_right(s, pos as int, false) == skip_right(s, old(self).cursor as int, false),
            decreases s.len() - pos,
        {
            pos = pos + 1;
        }
        let ghost mid = pos;
        while pos < self.buffer.len() && is_ascii_whitespace_char(self.buffer[pos])
            invariant
                s == self.buffer@,
                pos <= s.len(),
                mid == skip_right(s, old(self).cursor as int, false),
                skip_right(s, pos as int, true) == skip_right(s, mid as int, true),
            decreases s.len() - pos,
        {
            pos = pos + 1;
        }
        self.cursor = pos;
    }

    /// Clear the buffer and return the submitted text, recording non-blank
    /// text in the history (dropping the oldest entry when full).
    pub fn submit(&mut self) -> (text: String)
        requires
            old(self).wf(),
        ensures
            final(self).wf(),
            text@ == old(self).buffer@,
            final(self).buffer@.len() == 0,
            final(self).cursor == 0,
            final(self).history_pos is None,
            final(self).suggestions@.len() == 0,
            final(self).focused == old(self).focused,
            final(self).history_view() == submitted_history(
                old(self).history_view(),
                old(self).buffer@,
            ),
    {
        let mut chars: Vec<char> = Vec::new();
        std::mem::swap(&mut chars, &mut self.buffer);
        let text = string_of(&chars);
        self.cursor = 0;
        self.history_pos = None;
        let trimmed = trim_chars(&chars);
        proof {
            crate::text::lemma_trim_empty_iff_blank(chars@);
        }
        if trimmed.len() > 0 {
            let ghost h0 = self.history@;
            if self.history.len() >= HISTORY_CAPACITY {
                self.history.pop_front();
                assert(self.history@ =~= h0.drop_first());
                assert(h0.drop_first().map_values(|s: String| s@) =~= h0.map_values(
                    |s: String| s@,
                ).drop_first());
            }
            let ghost h1 = self.history@;
            self.history.push_back(text.clone());
            proof {
                assert(self.history@ =~= h1.push(text));
                assert(self.history_view() =~= h1.map_values(|s: String| s@).push(text@));
                assert forall|i: int| 0 <= i < self.history@.len() implies fits(
                    #[trigger] self.history@[i]@,
                ) by {
                    if i < h1.len() {
                        if h0.len() >= HISTORY_CAPACITY {
                            assert(h1[i] == h0[i + 1]);
                        }
                    }
                }
            }
        }
        self.suggestions = Vec::new();
        text
    }

    /// Navigate to the previous (older) history entry.
    pub fn history_prev(&mut self)
        requires
            old(self).wf(),
        ensures
            final(self).wf(),
            old(self).history@.len() == 0 ==> *final(self) == *old(self),
            old(self).history@.len() > 0 ==> {
                let pos = match old(self).history_pos {
                    None => old(self).history@.len() - 1,
                    Some(p) => if p > 0 {
                        p - 1
                    } else {
                        p as int
                    },
                };
                &&& final(self).history_pos == Some(pos as usize)
                &&& final(self).buffer@ == old(self).history@[pos]@
                &&& final(self).cursor == final(self).buffer@.len()
            },
            final(self).history == old(self).history,
            final(self).focused == old(self).focused,
            final(self).suggestions == old(self).suggestions,
    {
        if self.history.len() == 0 {
            return;
        }
        let pos = match self.history_pos {
            None => self.history.len() - 1,
            Some(p) => if p > 0 {
                p - 1
            } else {
                p
            },
        };
        self.history_pos = Some(pos);
        self.buffer = chars_of(self.history[pos].as_str());
        self.cursor = self.buffer.len();
    }

    /// Navigate to the next (newer) history entry; past the newest, clear
    /// the buffer to compose anew.
    pub fn history_next(&mut self)
        requires
            old(self).wf(),
        ensures
            final(self).wf(),
            old(self).history_pos is None ==> *final(self) == *old(self),
            match old(self).history_pos {
                None => true,
                Some(p) => if p + 1 >= old(self).history@.len() {
                    &&& final(self).history_pos is None
                    &&& final(self).buffer@.len() == 0
                    &&& final(self).cursor == 0
                } else {
                    &&& final(self).history_pos == Some((p + 1) as usize)
                    &&& final(self).buffer@ == old(self).history@[p + 1]@
                    &&& final(self).cursor == final(self).buffer@.len()
                },
            },
            final(self).history == old(self).history,
            final(self).focused == old(self).focused,
            final(self).suggestions == old(self).suggestions,
    {
        let len = self.history.len();
        match self.history_pos {
            None => {},
            Some(p) => {
                if p + 1 >= len {
                    self.history_pos = None;
                    self.buffer.clear();
                    self.cursor = 0;
                } else {
                    self.history_pos = Some(p + 1);
                    self.buffer = chars_of(self.history[p + 1].as_str());
                    self.cursor = self.buffer.len();
                }
            },
        }
    }

    /// Is the current input a slash command?
    pub fn is_command(&self) -> (r: bool)
        ensures
            r == (self.buffer@.len() > 0 && self.buffer@[0] == '/'),
    {
        self.buffer.len() > 0 && self.buffer[0] == '/'
    }

    /// Parse the current input as a command: its name and its arguments.
    pub fn parse_command(&self) -> (r: Option<(String, String)>)
        ensures
            match parsed_command(self.buffer@) {
                None => r is None,
                Some((name, args)) => r matches Some((n, a)) && n@ == name && a@ == args,
            },
    {
        let b = &self.buffer;
        let n = b.len();
        let mut start: usize = 0;
        assert(b@.skip(0) =~= b@);
        while start < n && b[start] == '/'
            invariant
                n == b@.len(),
                start <= n,
                strip_slashes(b@.skip(start as int)) == strip_slashes(b@),
            decreases n - start,
        {
            proof {
                lemma_strip_slashes_skip(b@, start as int);
            }
            start = start + 1;
        }
        proof {
            assert(b@.skip(0) =~= b@);
        }
        let ghost t = b@.skip(start as int);
        assert(strip_slashes(t) == t);
        proof {
            lemma_find_char(t, ' ');
        }
        let mut name: Vec<char> = Vec::new();
        let mut i = start;
        while i < n && b[i] != ' '
            invariant
                n == b@.len(),
                start <= i <= n,
                t == b@.skip(start as int),
                i - start <= find_char(t, ' '),
                0 <= find_char(t, ' ') <= t.len(),
                forall|j: int| 0 <= j < find_char(t, ' ') ==> t[j] != ' ',
                find_char(t, ' ') < t.len() ==> t[find_char(t, ' ')] == ' ',
                name@ == t.subrange(0, i - start),
            decreases n - i,
        {
            name.push(b[i]);
            i = i + 1;
        }
        proof {
            if i < n {
                assert(t[i - start] == b@[i as int]);
            }
        }
        assert(i - start == find_char(t, ' '));
        let mut rest: Vec<char> = Vec::new();
        if i < n {
            let mut j = i + 1;
            while j < n
                invariant
                    n == b@.len(),
                    i < n,
                    start <= i,
                    i + 1 <= j <= n,
                    t == b@.skip(start as int),
                    rest@ == t.subrange(i - start + 1, j - start),
                decreases n - j,
            {
                rest.push(b[j]);
                j = j + 1;
            }
        }
        if name.len() == 0 {
            None
        } else {
            let args = trim_chars(&rest);
            Some((string_of(&name), string_of(&args)))
        }
    }
}


/// Typing a character and then deleting it with backspace gives back the
/// buffer and the cursor position from before.
pub proof fn law_insert_then_backspace(buf: Seq<char>, cur: int, c: char)
    requires
        0 <= cur <= buf.len(),
    ensures
        removed(inserted(buf, cur, c), (cur + 1) - 1) == buf,
{
    assert(removed(inserted(buf, cur, c), cur) =~= buf);
}

/// Word movement never leaves the buffer: moving left goes back, moving
/// right goes forward, and both stop within `[0, len]`.
pub proof fn law_word_motion_in_bounds(s: Seq<char>, pos: int)
    requires
        0 <= pos <= s.len(),
    ensures
        0 <= word_left(s, pos) <= pos,
        pos <= word_right(s, pos) <= s.len(),
{
    lemma_skip_left_bounds(s, pos, true);
    lemma_skip_left_bounds(s, skip_left(s, pos, true), false);
    lemma_skip_right_bounds(s, pos, false);
    lemma_skip_right_bounds(s, skip_right(s, pos, false), true);
}

/// Skipping from `pos` passes only characters of the kind skipped, and stops
/// at the end or at the first character of the other kind.
proof fn lemma_skip_right_stops(s: Seq<char>, pos: int, ws: bool)
    requires
        0 <= pos <= s.len(),
    ensures
        pos <= skip_right(s, pos, ws) <= s.len(),
        forall|i: int| pos <= i < skip_right(s, pos, ws) ==> is_ascii_ws(#[trigger] s[i]) == ws,
        skip_right(s, pos, ws) == s.len() || is_ascii_ws(s[skip_right(s, pos, ws)]) != ws,
    decreases s.len() - pos,
{
    if pos < s.len() && is_ascii_ws(s[pos]) == ws {
        lemma_skip_right_stops(s, pos + 1, ws);
    }
}

/// Moving a word right from `pos` passes the rest of the word under the
/// cursor (the characters up to the first whitespace), then the whitespace
/// after it, and lands at the end of the text or on the first character of
/// the next word.
pub proof fn law_word_right_lands_on_next_word(s: Seq<char>, pos: int)
    requires
        0 <= pos <= s.len(),
    ensures
        ({
            let r = word_right(s, pos);
            &&& pos <= r <= s.len()
            &&& (r == s.len() || !is_ascii_ws(s[r]))
            &&& exists|m: int|
                pos <= m <= r && (m == s.len() || is_ascii_ws(s[m])) && (forall|i: int|
                    pos <= i < m ==> !is_ascii_ws(#[trigger] s[i])) && (forall|i: int|
                    m <= i < r ==> is_ascii_ws(#[trigger] s[i]))
        }),
{
    let m = skip_right(s, pos, false);
    lemma_skip_right_stops(s, pos, false);
    lemma_skip_right_stops(s, m, true);
    let r = word_right(s, pos);
    assert(pos <= m <= r && (m == s.len() || is_ascii_ws(s[m])) && (forall|i: int|
        pos <= i < m ==> !is_ascii_ws(#[trigger] s[i])) && (forall|i: int|
        m <= i < r ==> is_ascii_ws(#[trigger] s[i])));
}

/// After a non-blank submission the history holds at most its capacity and
/// its newest entry is the submitted text, which is what stepping back into
/// the history from a fresh composition recalls first.
pub proof fn law_submission_is_newest(history: Seq<Seq<char>>, text: Seq<char>)
    requires
        history.len() <= HISTORY_CAPACITY,
        !is_blank(text),
    ensures
        submitted_history(history, text).len() <= HISTORY_CAPACITY,
        submitted_history(history, text).len() > 0,
        submitted_history(history, text).last() == text,
{
}

/// Suggestions appear only for slash commands and never number more than
/// the limit.
pub proof fn law_suggestions_only_for_commands(buffer: Seq<char>)
    ensures
        suggestions_for(buffer).len() > 0 ==> buffer.len() > 0 && buffer[0] == '/',
        suggestions_for(buffer).len() <= MAX_SUGGESTIONS,
{
    if buffer.len() > 0 && buffer[0] == '/' {
        lemma_suggestions_from_len(slash_table(), buffer.drop_first(), MAX_SUGGESTIONS as nat);
    }
}

proof fn lemma_suggestions_from_len(
    entries: Seq<(Seq<char>, Seq<char>)>,
    prefix: Seq<char>,
    limit: nat,
)
    ensures
        suggestions_from(entries, prefix, limit).len() <= limit,
    decreases entries.len(),
{
    if entries.len() > 0 && limit > 0 {
        if prefix.is_prefix_of(entries[0].0) {
            lemma_suggestions_from_len(entries.drop_first(), prefix, (limit - 1) as nat);
        } else {
            lemma_suggestions_from_len(entries.drop_first(), prefix, limit);
        }
    }
}


impl Default for InputBar {
    /// An empty, focused editor.
    fn default() -> (r: InputBar)
        ensures
            r.wf(),
            r.buffer@ == Seq::<char>::empty(),
            r.cursor == 0,
            r.history@.len() == 0,
            r.history_pos is None,
            r.focused,
            r.suggestions@.len() == 0,
    {
        InputBar::new()
    }
}

} // verus!
