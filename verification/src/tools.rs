//! Tools: their descriptors, calls and results, and the decisions of the
//! built-in file, shell, search and git tools that do not touch the
//! machine (where a path resolves, how long output is cut, what an edit
//! does to a file's text, how `git status` output is read).

use vstd::prelude::*;

use crate::outside::ExJsonValue;
use crate::text::{
    byte_len, char_utf8_width, chars_of, decimal, decimal_of, push_range, str_eq, string_of, trim,
    trim_chars,
};
use crate::trace::{lines_of, text_lines};

verus! {

/// Category of tool for policy and routing purposes.
#[derive(Debug, Clone, Copy, PartialEq, Eq, Structural, Hash)]
pub enum ToolCategory {
    LocalExecution,
    VersionControl,
    Mcp,
    BrowserControl,
    MobileControl,
    DesktopControl,
    NetworkedComms,
    Eval,
    Observability,
    Memory,
}

/// Describes a tool available in the harness.
#[derive(Debug, Clone)]
pub struct ToolDescriptor {
    /// Unique tool name (e.g. "bash", "git", "mcp:search").
    pub name: String,
    /// Human-readable description.
    pub description: String,
    /// Whether the tool is read-only.
    pub read_only: bool,
    /// Tool category for policy classification.
    pub category: ToolCategory,
}

/// A request to invoke a tool.
#[derive(Debug, Clone)]
pub struct ToolCall {
    /// Which tool to invoke.
    pub tool: String,
    /// Arguments as structured JSON.
    pub args: serde_json::Value,
    /// Optional world to execute in.
    pub world: Option<u128>,
    /// Which creature is making the call.
    pub requested_by: u128,
}

/// Evidence reference attached to a tool result.
#[derive(Debug, Clone)]
pub struct ToolEvidence {
    /// Kind label (e.g. "diff", "transcript", "screenshot").
    pub kind: String,
    /// URI or path to the artifact.
    pub uri: String,
}

/// The result of a tool invocation.
#[derive(Debug, Clone)]
pub struct ToolResult {
    /// Whether the call succeeded.
    pub ok: bool,
    /// Structured output.
    pub output: serde_json::Value,
    /// Evidence artifacts produced by the call.
    pub evidence: Vec<ToolEvidence>,
}


/// Shared context passed to every tool handler.
#[derive(Debug, Clone)]
pub struct ToolContext {
    /// The repository root relative paths resolve against.
    pub repo_root: Option<String>,
}

/// Where a path argument points (on Unix): an absolute path as it is, a
/// relative one under the repository root when there is one (with a `/`
/// between them unless the root is empty or ends with one).
pub open spec fn resolved_path(p: Seq<char>, root: Option<Seq<char>>) -> Seq<char> {
    if p.len() > 0 && p[0] == '/' {
        p
    } else {
        match root {
            Some(r) => if r.len() > 0 && r.last() != '/' {
                r + "/"@ + p
            } else {
                r + p
            },
            None => p,
        }
    }
}

/// Resolve a path argument against the repository root if it is relative.
pub fn resolve_path(p: &str, repo_root: &Option<String>) -> (r: String)
    ensures
        r@ == resolved_path(
            p@,
            match repo_root {
                Some(s) => Some(s@),
                None => None,
            },
        ),
{
    let pc = chars_of(p);
    if pc.len() > 0 && pc[0] == '/' {
        return String::from_str(p);
    }
    match repo_root {
        Some(root) => {
            let rc = chars_of(root.as_str());
            if rc.len() > 0 && rc[rc.len() - 1] != '/' {
                root.clone().concat("/").concat(p)
            } else {
                root.clone().concat(p)
            }
        },
        None => String::from_str(p),
    }
}

/// Whether `n` bytes into the text fall between two characters.
pub open spec fn on_boundary(s: Seq<char>, n: nat) -> bool {
    exists|k: int| 0 <= k <= s.len() && byte_len(#[trigger] s.take(k)) == n
}

/// The text cut to `max` bytes, followed by a note of the kept length, when
/// it is longer than that; otherwise the text unchanged.
pub open spec fn truncated(s: Seq<char>, max: nat) -> Seq<char> {
    if byte_len(s) > max {
        let k = choose|k: int| 0 <= k <= s.len() && byte_len(#[trigger] s.take(k)) == max;
        s.take(k) + "\n[truncated: "@ + decimal(max) + " bytes]"@
    } else {
        s
    }
}

proof fn lemma_byte_len_prefix_mono(s: Seq<char>, i: int, j: int)
    requires
        0 <= i <= j <= s.len(),
    ensures
        byte_len(s.take(i)) <= byte_len(s.take(j)),
        i < j ==> byte_len(s.take(i)) < byte_len(s.take(j)),
    decreases j - i,
{
    if i < j {
        lemma_byte_len_prefix_mono(s, i, j - 1);
        assert(s.take(j).drop_last() =~= s.take(j - 1));
    }
}

/// The number of characters that make up the first `n` bytes of a text,
/// when `n` bytes end between two characters.
pub open spec fn char_at_byte(s: Seq<char>, n: nat) -> Option<int> {
    if on_boundary(s, n) {
        Some(choose|k: int| 0 <= k <= s.len() && byte_len(#[trigger] s.take(k)) == n)
    } else {
        None
    }
}

/// Where the first `n` bytes of a text end, in characters.
pub fn byte_boundary(s: &Vec<char>, n: usize) -> (r: Option<usize>)
    ensures
        match r {
            Some(k) => char_at_byte(s@, n as nat) == Some(k as int),
            None => char_at_byte(s@, n as nat) is None,
        },
{
    let mut bytes: u128 = 0;
    let mut i: usize = 0;
    while i < s.len() && bytes < n as u128
        invariant
            i <= s@.len(),
            bytes == byte_len(s@.take(i as int)),
            forall|k: int| 0 <= k < i ==> byte_len(#[trigger] s@.take(k)) < n,
        decreases s.len() - i,
    {
        proof {
            assert(s@.take(i + 1).drop_last() =~= s@.take(i as int));
            assert forall|k: int| 0 <= k < i + 1 implies byte_len(#[trigger] s@.take(k)) < n by {
                if k < i {
                } else {
                    assert(k == i);
                }
            }
        }
        bytes = bytes + char_utf8_width(s[i]) as u128;
        i = i + 1;
    }
    if bytes == n as u128 {
        proof {
            assert(byte_len(s@.take(i as int)) == n);
            assert(on_boundary(s@, n as nat));
            let c = choose|k: int| 0 <= k <= s@.len() && byte_len(#[trigger] s@.take(k)) == n;
            if c < i {
                lemma_byte_len_prefix_mono(s@, c, i as int);
            } else if c > i {
                lemma_byte_len_prefix_mono(s@, i as int, c);
            }
        }
        Some(i)
    } else {
        proof {
            assert forall|k: int| 0 <= k <= s@.len() implies byte_len(#[trigger] s@.take(k)) != n by {
                if k < i {
                } else if k > i {
                    lemma_byte_len_prefix_mono(s@, i as int, k);
                }
            }
        }
        None
    }
}

/// What `git status --porcelain=v1` reports on a line, as (path, status):
/// the path is what follows the third byte, the status the first two bytes
/// trimmed; each is empty where the line is too short for it or the cut
/// falls inside a character.
pub open spec fn porcelain_entry(l: Seq<char>) -> (Seq<char>, Seq<char>) {
    (
        match char_at_byte(l, 3) {
            Some(k) => l.skip(k),
            None => Seq::empty(),
        },
        match char_at_byte(l, 2) {
            Some(k) => trim(l.take(k)),
            None => Seq::empty(),
        },
    )
}

/// The entries of `git status --porcelain=v1` output: one per non-empty
/// line, in order.
pub open spec fn porcelain_entries(out: Seq<char>) -> Seq<(Seq<char>, Seq<char>)> {
    lines_of(out).filter(|l: Seq<char>| l.len() > 0).map_values(|l: Seq<char>| porcelain_entry(l))
}

fn porcelain_line(l: &Vec<char>) -> (e: (String, String))
    ensures
        (e.0@, e.1@) == porcelain_entry(l@),
{
    let path = match byte_boundary(l, 3) {
        Some(k) => {
            let mut v: Vec<char> = Vec::new();
            push_range(&mut v, l, k, l.len());
            assert(v@ =~= l@.skip(k as int));
            string_of(&v)
        },
        None => String::new(),
    };
    let status = match byte_boundary(l, 2) {
        Some(k) => {
            let mut v: Vec<char> = Vec::new();
            push_range(&mut v, l, 0, k);
            assert(v@ =~= l@.take(k as int));
            string_of(&trim_chars(&v))
        },
        None => String::new(),
    };
    (path, status)
}

/// The changed files `git status --porcelain=v1` reports, as (path,
/// status) pairs, in order.
pub fn git_status_entries(stdout: &str) -> (entries: Vec<(String, String)>)
    ensures
        entries@.map_values(|e: (String, String)| (e.0@, e.1@)) == porcelain_entries(stdout@),
{
    let lines = text_lines(stdout);
    let ghost lv = lines@.map_values(|l: Vec<char>| l@);
    let ghost pred = |l: Seq<char>| l.len() > 0;
    let ghost f = |l: Seq<char>| porcelain_entry(l);
    let mut out: Vec<(String, String)> = Vec::new();
    let mut i: usize = 0;
    while i < lines.len()
        invariant
            i <= lines@.len(),
            lv == lines@.map_values(|l: Vec<char>| l@),
            lv == lines_of(stdout@),
            pred == (|l: Seq<char>| l.len() > 0),
            f == (|l: Seq<char>| porcelain_entry(l)),
            out@.map_values(|e: (String, String)| (e.0@, e.1@)) == lv.take(i as int).filter(pred).map_values(f),
        decreases lines.len() - i,
    {
        let ghost before = out@.map_values(|e: (String, String)| (e.0@, e.1@));
        proof {
            reveal(Seq::filter);
            let t1 = lv.take(i + 1);
            assert(t1.drop_last() =~= lv.take(i as int));
            assert(t1.last() == lines@[i as int]@);
        }
        if lines[i].len() > 0 {
            let e = porcelain_line(&lines[i]);
            out.push(e);
            proof {
                let fl = lv.take(i as int).filter(pred);
                assert(lv.take(i + 1).filter(pred) == fl.push(lines@[i as int]@));
                assert(fl.push(lines@[i as int]@).map_values(f) =~= fl.map_values(f).push(f(lines@[i as int]@)));
                assert(out@.map_values(|e: (String, String)| (e.0@, e.1@)) =~= before.push((e.0@, e.1@)));
            }
        } else {
            proof {
                assert(lv.take(i + 1).filter(pred) == lv.take(i as int).filter(pred));
            }
        }
        i = i + 1;
    }
    proof {
        assert(lv.take(i as int) =~= lv);
    }
    out
}

/// Cut output that is longer than `max` bytes, noting the kept length. The
/// cut must fall between two characters.
pub fn truncate_to(s: &mut String, max: usize)
    requires
        byte_len(old(s)@) > max ==> on_boundary(old(s)@, max as nat),
    ensures
        final(s)@ == truncated(old(s)@, max as nat),
{
    let cs = chars_of(s.as_str());
    let mut kept: Vec<char> = Vec::new();
    let mut bytes: usize = 0;
    let mut i: usize = 0;
    while i < cs.len() && bytes < max && char_utf8_width(cs[i]) <= max - bytes
        invariant
            i <= cs@.len(),
            kept@ == cs@.take(i as int),
            bytes == byte_len(cs@.take(i as int)),
            bytes <= max,
        decreases cs.len() - i,
    {
        let w = char_utf8_width(cs[i]);
        proof {
            assert(cs@.take(i + 1).drop_last() =~= cs@.take(i as int));
        }
        kept.push(cs[i]);
        bytes = bytes + w;
        i = i + 1;
    }
    if i == cs.len() {
        proof {
            assert(cs@.take(i as int) =~= cs@);
        }
        if bytes <= max {
            return;
        }
    }
    proof {
        assert(cs@.take(cs@.len() as int) =~= cs@);
        lemma_byte_len_prefix_mono(cs@, i as int, cs@.len() as int);
        if i < cs@.len() {
            assert(cs@.take(i + 1).drop_last() =~= cs@.take(i as int));
            lemma_byte_len_prefix_mono(cs@, i + 1, cs@.len() as int);
        }
    }
    if bytes < max {
        // The cut would fall inside character `i`: the text is longer than
        // `max` and `max` is no boundary, which the precondition rules out.
        proof {
            let k = choose|k: int| 0 <= k <= cs@.len() && byte_len(#[trigger] cs@.take(k)) == max;
            if k <= i {
                lemma_byte_len_prefix_mono(cs@, k, i as int);
            } else {
                lemma_byte_len_prefix_mono(cs@, i + 1, k);
                assert(cs@.take(i + 1).drop_last() =~= cs@.take(i as int));
            }
        }
        return;
    }
    proof {
        let k = choose|k: int| 0 <= k <= cs@.len() && byte_len(#[trigger] cs@.take(k)) == max as nat;
        if k < i {
            lemma_byte_len_prefix_mono(cs@, k, i as int);
        } else if k > i {
            lemma_byte_len_prefix_mono(cs@, i as int, k);
        }
        assert(k == i);
    }
    let digits = string_of(&decimal_of(max as u64));
    *s = string_of(&kept).concat("\n[truncated: ").concat(digits.as_str()).concat(" bytes]");
}

/// How many times `p` occurs in `s`, counting non-overlapping occurrences
/// from the left (`str::matches(p).count()`); the empty pattern occurs at
/// every character boundary.
pub open spec fn count_matches(s: Seq<char>, p: Seq<char>) -> nat
    decreases s.len(),
{
    if p.len() == 0 {
        s.len() + 1
    } else if s.len() == 0 {
        0
    } else if p.is_prefix_of(s) {
        1 + count_matches(s.skip(p.len() as int), p)
    } else {
        count_matches(s.drop_first(), p)
    }
}

/// The position of the first occurrence of `p` in `s`, if any.
pub open spec fn first_match(s: Seq<char>, p: Seq<char>) -> Option<int>
    decreases s.len(),
{
    if p.is_prefix_of(s) {
        Some(0)
    } else if s.len() == 0 {
        None
    } else {
        match first_match(s.drop_first(), p) {
            Some(i) => Some(i + 1),
            None => None,
        }
    }
}

/// What replacing the unique occurrence of a text does to a file.
#[derive(Debug, Clone)]
pub enum EditPlan {
    /// The text does not occur.
    NotFound,
    /// The text occurs this many times.
    NotUnique(usize),
    /// The file's new content.
    Replaced(String),
}

/// An edit plan as plain values.
pub enum EditPlanView {
    NotFound,
    NotUnique(nat),
    Replaced(Seq<char>),
}

impl EditPlan {
    pub open spec fn view(&self) -> EditPlanView {
        match self {
            EditPlan::NotFound => EditPlanView::NotFound,
            EditPlan::NotUnique(n) => EditPlanView::NotUnique(*n as nat),
            EditPlan::Replaced(c) => EditPlanView::Replaced(c@),
        }
    }
}

/// Replace the one occurrence of `old` by `new`: refused when `old` does not
/// occur or occurs more than once.
pub open spec fn edit_of(content: Seq<char>, old: Seq<char>, new: Seq<char>) -> EditPlanView {
    let n = count_matches(content, old);
    if n == 0 {
        EditPlanView::NotFound
    } else if n > 1 {
        EditPlanView::NotUnique(n)
    } else {
        match first_match(content, old) {
            Some(i) => EditPlanView::Replaced(content.take(i) + new + content.skip(i + old.len())),
            None => EditPlanView::Replaced(content),
        }
    }
}

proof fn lemma_prefix_here(s: Seq<char>, p: Seq<char>, i: int)
    requires
        0 <= i <= s.len(),
    ensures
        p.is_prefix_of(s.skip(i)) <==> (i + p.len() <= s.len() && s.subrange(i, i + p.len()) == p),
{
    if i + p.len() <= s.len() {
        if p.is_prefix_of(s.skip(i)) {
            assert(s.subrange(i, i + p.len()) =~= p);
        }
        if s.subrange(i, i + p.len()) == p {
            assert forall|j: int| 0 <= j < p.len() implies p[j] == s.skip(i)[j] by {
                assert(s.subrange(i, i + p.len())[j] == s[i + j]);
            }
        }
    }
}

/// Whether `p` occurs at position `i` of `s`.
fn occurs_at(s: &Vec<char>, p: &Vec<char>, i: usize) -> (r: bool)
    requires
        i <= s@.len(),
    ensures
        r == p@.is_prefix_of(s@.skip(i as int)),
{
    proof {
        lemma_prefix_here(s@, p@, i as int);
    }
    if p.len() > s.len() - i {
        return false;
    }
    let mut j: usize = 0;
    while j < p.len()
        invariant
            i + p@.len() <= s.len(),
            j <= p@.len(),
            forall|m: int| 0 <= m < j ==> p@[m] == s@[i + m],
        decreases p.len() - j,
    {
        if p[j] != s[i + j] {
            return false;
        }
        j = j + 1;
    }
    assert(s@.subrange(i as int, i + p@.len()) =~= p@);
    true
}

proof fn lemma_count_step(s: Seq<char>, p: Seq<char>, i: int)
    requires
        p.len() > 0,
        0 <= i < s.len(),
    ensures
        count_matches(s.skip(i), p) == if p.is_prefix_of(s.skip(i)) {
            1 + count_matches(s.skip(i + p.len()), p)
        } else {
            count_matches(s.skip(i + 1), p)
        },
{
    assert(s.skip(i).drop_first() =~= s.skip(i + 1));
    if p.is_prefix_of(s.skip(i)) {
        assert(s.skip(i).skip(p.len() as int) =~= s.skip(i + p.len()));
    }
}

proof fn lemma_first_step(s: Seq<char>, p: Seq<char>, i: int)
    requires
        0 <= i < s.len(),
        !p.is_prefix_of(s.skip(i)),
    ensures
        first_match(s.skip(i), p) == match first_match(s.skip(i + 1), p) {
            Some(j) => Some(j + 1),
            None => None::<int>,
        },
{
    assert(s.skip(i).drop_first() =~= s.skip(i + 1));
}

/// Plan the edit of a file's content.
#[verifier::loop_isolation(false)]
pub fn plan_edit(content: &str, old_text: &str, new_text: &str) -> (plan: EditPlan)
    requires
        content@.len() < usize::MAX,
    ensures
        plan.view() == edit_of(content@, old_text@, new_text@),
{
    let s = chars_of(content);
    let p = chars_of(old_text);
    if p.len() == 0 {
        if s.len() == 0 {
            proof {
                assert(p@.is_prefix_of(s@));
                assert(s@.take(0) + new_text@ + s@.skip(0) =~= new_text@);
            }
            return EditPlan::Replaced(String::from_str(new_text));
        }
        return EditPlan::NotUnique(s.len() + 1);
    }
    // Count the occurrences, up to two.
    let mut count: usize = 0;
    let mut first: usize = 0;
    let mut i: usize = 0;
    proof {
        assert(s@.skip(0) =~= s@);
    }
    while i < s.len() && count < 2
        invariant
            p@.len() > 0,
            i <= s@.len(),
            count <= 2,
            count <= i,
            count_matches(s@, p@) == count + count_matches(s@.skip(i as int), p@),
            count == 0 ==> first_match(s@, p@) == match first_match(s@.skip(i as int), p@) {
                Some(j) => Some(j + i),
                None => None::<int>,
            },
            count > 0 ==> first_match(s@, p@) == Some(first as int),
            count > 0 ==> first + p@.len() <= s@.len(),
        decreases s.len() - i,
    {
        proof {
            lemma_count_step(s@, p@, i as int);
        }
        if occurs_at(&s, &p, i) {
            if count == 0 {
                first = i;
                proof {
                    assert(first_match(s@.skip(i as int), p@) == Some(0int));
                    lemma_prefix_here(s@, p@, i as int);
                }
            }
            count = count + 1;
            i = i + p.len();
        } else {
            proof {
                if count == 0 {
                    lemma_first_step(s@, p@, i as int);
                }
            }
            i = i + 1;
        }
    }
    if count == 0 {
        proof {
            assert(s@.skip(i as int).len() == 0);
        }
        return EditPlan::NotFound;
    }
    if count >= 2 {
        // More than one: count them all.
        let mut total: usize = count;
        while i < s.len()
            invariant
                p@.len() > 0,
                i <= s@.len(),
                2 <= total <= i,
                count_matches(s@, p@) == total + count_matches(s@.skip(i as int), p@),
            decreases s.len() - i,
        {
            proof {
                lemma_count_step(s@, p@, i as int);
            }
            if occurs_at(&s, &p, i) {
                total = total + 1;
                i = i + p.len();
            } else {
                i = i + 1;
            }
        }
        proof {
            assert(s@.skip(i as int).len() == 0);
        }
        return EditPlan::NotUnique(total);
    }
    // Exactly one so far: make sure there is no other.
    let mut j = i;
    let mut again = false;
    while j < s.len() && !again
        invariant
            p@.len() > 0,
            j <= s@.len(),
            count_matches(s@, p@) == 1 + count_matches(s@.skip(j as int), p@) || again,
            again ==> count_matches(s@, p@) >= 2,
        decreases s.len() - j + if again {
            0int
        } else {
            1int
        },
    {
        proof {
            lemma_count_step(s@, p@, j as int);
        }
        if occurs_at(&s, &p, j) {
            again = true;
        } else {
            j = j + 1;
        }
    }
    if again {
        // Count them all for the report.
        let mut total: usize = 1;
        let mut k: usize = i;
        while k < s.len()
            invariant
                p@.len() > 0,
                k <= s@.len(),
                1 <= total <= k,
                count_matches(s@, p@) == total + count_matches(s@.skip(k as int), p@),
            decreases s.len() - k,
        {
            proof {
                lemma_count_step(s@, p@, k as int);
            }
            if occurs_at(&s, &p, k) {
                total = total + 1;
                k = k + p.len();
            } else {
                k = k + 1;
            }
        }
        proof {
            assert(s@.skip(k as int).len() == 0);
        }
        return EditPlan::NotUnique(total);
    }
    proof {
        assert(s@.skip(j as int).len() == 0);
    }
    let mut out: Vec<char> = Vec::new();
    let mut m: usize = 0;
    while m < first
        invariant
            first + p@.len() <= s@.len(),
            m <= first,
            out@ == s@.take(m as int),
        decreases first - m,
    {
        out.push(s[m]);
        m = m + 1;
        proof {
            assert(s@.take(m as int) =~= s@.take(m - 1).push(s@[m - 1]));
        }
    }
    let nc = chars_of(new_text);
    let mut q: usize = 0;
    while q < nc.len()
        invariant
            q <= nc@.len(),
            out@ == s@.take(first as int) + nc@.take(q as int),
        decreases nc.len() - q,
    {
        out.push(nc[q]);
        q = q + 1;
        proof {
            assert(s@.take(first as int) + nc@.take(q as int) =~= (s@.take(first as int) + nc@.take(
                q - 1,
            )).push(nc@[q - 1]));
        }
    }
    let mut r: usize = first + p.len();
    while r < s.len()
        invariant
            first + p@.len() <= r <= s@.len(),
            out@ == s@.take(first as int) + nc@ + s@.subrange(first + p@.len(), r as int),
        decreases s.len() - r,
    {
        out.push(s[r]);
        r = r + 1;
        proof {
            assert(s@.subrange(first + p@.len(), r as int) =~= s@.subrange(
                first + p@.len(),
                r - 1,
            ).push(s@[r - 1]));
        }
    }
    proof {
        assert(nc@.take(q as int) =~= nc@);
        assert(s@.subrange(first + p@.len(), r as int) =~= s@.skip(first + p@.len()));
    }
    EditPlan::Replaced(string_of(&out))
}

/// The tools the default router is wired with.
#[derive(Debug, Clone, Copy, PartialEq, Eq, Structural)]
pub enum BuiltinTool {
    ReadFile,
    WriteFile,
    EditFile,
    Bash,
    Glob,
    Grep,
    GitStatus,
}

/// The built-in tools, in order of registration.
pub open spec fn builtin_tools() -> Seq<BuiltinTool> {
    seq![BuiltinTool::ReadFile, BuiltinTool::WriteFile, BuiltinTool::EditFile, BuiltinTool::Bash, BuiltinTool::Glob, BuiltinTool::Grep, BuiltinTool::GitStatus]
}

/// A built-in tool's descriptor: (name, description, read-only, category).
pub open spec fn builtin_descriptor(t: BuiltinTool) -> (Seq<char>, Seq<char>, bool, ToolCategory) {
    match t {
        BuiltinTool::ReadFile => ("read_file"@, "Read a file as UTF-8 text."@, true, ToolCategory::LocalExecution),
        BuiltinTool::WriteFile => ("write_file"@, "Write content to a file, creating parent dirs."@, false, ToolCategory::LocalExecution),
        BuiltinTool::EditFile => ("edit_file"@, "Replace the first unique occurrence of old_text with new_text."@, false, ToolCategory::LocalExecution),
        BuiltinTool::Bash => ("bash"@, "Run a shell command and capture output."@, false, ToolCategory::LocalExecution),
        BuiltinTool::Glob => ("glob"@, "Find files matching a glob pattern (respects .gitignore)."@, true, ToolCategory::LocalExecution),
        BuiltinTool::Grep => ("grep"@, "Search file contents with a regex (respects .gitignore)."@, true, ToolCategory::LocalExecution),
        BuiltinTool::GitStatus => ("git_status"@, "Run `git status --porcelain=v1` in the repo."@, true, ToolCategory::VersionControl),
    }
}

/// The built-in tool registered under a name, if any.
pub open spec fn builtin_named(name: Seq<char>) -> Option<BuiltinTool> {
    if name == "read_file"@ {
        Some(BuiltinTool::ReadFile)
    } else if name == "write_file"@ {
        Some(BuiltinTool::WriteFile)
    } else if name == "edit_file"@ {
        Some(BuiltinTool::EditFile)
    } else if name == "bash"@ {
        Some(BuiltinTool::Bash)
    } else if name == "glob"@ {
        Some(BuiltinTool::Glob)
    } else if name == "grep"@ {
        Some(BuiltinTool::Grep)
    } else if name == "git_status"@ {
        Some(BuiltinTool::GitStatus)
    } else {
        None
    }
}

impl ToolDescriptor {
    /// The descriptor as plain values: (name, description, read-only, category).
    pub open spec fn view(&self) -> (Seq<char>, Seq<char>, bool, ToolCategory) {
        (self.name@, self.description@, self.read_only, self.category)
    }
}

impl BuiltinTool {
    /// Every built-in tool, in order of registration.
    pub fn all() -> (v: Vec<BuiltinTool>)
        ensures
            v@ == builtin_tools(),
    {
        let mut v: Vec<BuiltinTool> = Vec::new();
        v.push(BuiltinTool::ReadFile);
        v.push(BuiltinTool::WriteFile);
        v.push(BuiltinTool::EditFile);
        v.push(BuiltinTool::Bash);
        v.push(BuiltinTool::Glob);
        v.push(BuiltinTool::Grep);
        v.push(BuiltinTool::GitStatus);
        assert(v@ =~= builtin_tools());
        v
    }

    /// The tool registered under `name`, if any.
    pub fn named(name: &str) -> (t: Option<BuiltinTool>)
        ensures
            t == builtin_named(name@),
    {
        if str_eq(name, "read_file") {
            return Some(BuiltinTool::ReadFile);
        }
        if str_eq(name, "write_file") {
            return Some(BuiltinTool::WriteFile);
        }
        if str_eq(name, "edit_file") {
            return Some(BuiltinTool::EditFile);
        }
        if str_eq(name, "bash") {
            return Some(BuiltinTool::Bash);
        }
        if str_eq(name, "glob") {
            return Some(BuiltinTool::Glob);
        }
        if str_eq(name, "grep") {
            return Some(BuiltinTool::Grep);
        }
        if str_eq(name, "git_status") {
            return Some(BuiltinTool::GitStatus);
        }
        None
    }

    /// The tool's descriptor.
    pub fn descriptor(self) -> (d: ToolDescriptor)
        ensures
            d.view() == builtin_descriptor(self),
    {
        match self {
            BuiltinTool::ReadFile => ToolDescriptor {
                name: String::from_str("read_file"),
                description: String::from_str("Read a file as UTF-8 text."),
                read_only: true,
                category: ToolCategory::LocalExecution,
            },
            BuiltinTool::WriteFile => ToolDescriptor {
                name: String::from_str("write_file"),
                description: String::from_str("Write content to a file, creating parent dirs."),
                read_only: false,
                category: ToolCategory::LocalExecution,
            },
            BuiltinTool::EditFile => ToolDescriptor {
                name: String::from_str("edit_file"),
                description: String::from_str("Replace the first unique occurrence of old_text with new_text."),
                read_only: false,
                category: ToolCategory::LocalExecution,
            },
            BuiltinTool::Bash => ToolDescriptor {
                name: String::from_str("bash"),
                description: String::from_str("Run a shell command and capture output."),
                read_only: false,
                category: ToolCategory::LocalExecution,
            },
            BuiltinTool::Glob => ToolDescriptor {
                name: String::from_str("glob"),
                description: String::from_str("Find files matching a glob pattern (respects .gitignore)."),
                read_only: true,
                category: ToolCategory::LocalExecution,
            },
            BuiltinTool::Grep => ToolDescriptor {
                name: String::from_str("grep"),
                description: String::from_str("Search file contents with a regex (respects .gitignore)."),
                read_only: true,
                category: ToolCategory::LocalExecution,
            },
            BuiltinTool::GitStatus => ToolDescriptor {
                name: String::from_str("git_status"),
                description: String::from_str("Run `git status --porcelain=v1` in the repo."),
                read_only: true,
                category: ToolCategory::VersionControl,
            },
        }
    }
}

/// The descriptors of every built-in tool, in order of registration.
pub fn builtin_descriptors() -> (v: Vec<ToolDescriptor>)
    ensures
        v@.len() == builtin_tools().len(),
        forall|i: int| 0 <= i < v@.len() ==> (#[trigger] v@[i]).view() == builtin_descriptor(builtin_tools()[i]),
{
    let all = BuiltinTool::all();
    let mut v: Vec<ToolDescriptor> = Vec::new();
    let mut i: usize = 0;
    while i < all.len()
        invariant
            all@ == builtin_tools(),
            i <= all@.len(),
            v@.len() == i,
            forall|j: int| 0 <= j < i ==> (#[trigger] v@[j]).view() == builtin_descriptor(builtin_tools()[j]),
        decreases all.len() - i,
    {
        v.push(all[i].descriptor());
        i = i + 1;
    }
    v
}

/// Whether the default router can run the named tool.
pub fn healthcheck(name: &str) -> (b: bool)
    ensures
        b == (builtin_named(name@) is Some),
{
    BuiltinTool::named(name).is_some()
}

/// Why the default router refused a call.
#[derive(Debug, Clone)]
pub enum RouteError {
    /// No tool has this name.
    UnknownTool(String),
}

impl RouteError {
    /// The error's message: `unknown tool: <name>`.
    pub fn message(&self) -> (m: String)
        ensures
            match self {
                RouteError::UnknownTool(n) => m@ == "unknown tool: "@ + n@,
            },
    {
        match self {
            RouteError::UnknownTool(n) => String::from_str("unknown tool: ").concat(n.as_str()),
        }
    }
}

/// The tool a call goes to.
pub fn route(call: &ToolCall) -> (r: Result<BuiltinTool, RouteError>)
    ensures
        match builtin_named(call.tool@) {
            Some(t) => r == Ok::<BuiltinTool, RouteError>(t),
            None => r matches Err(RouteError::UnknownTool(n)) && n@ == call.tool@,
        },
{
    match BuiltinTool::named(call.tool.as_str()) {
        Some(t) => Ok(t),
        None => Err(RouteError::UnknownTool(call.tool.clone())),
    }
}


/// Whether `p` occurs in `s` (`str::contains`).
pub fn contains_text(s: &str, p: &str) -> (b: bool)
    ensures
        b == (first_match(s@, p@) is Some),
{
    let sc = chars_of(s);
    let pc = chars_of(p);
    let mut i: usize = 0;
    proof {
        assert(sc@.skip(0) =~= sc@);
    }
    while i <= sc.len()
        invariant
            i <= sc@.len() + 1,
            sc@ == s@,
            pc@ == p@,
            i <= sc@.len() ==> ((first_match(sc@, pc@) is Some) == (first_match(sc@.skip(i as int), pc@) is Some)),
            i > sc@.len() ==> first_match(sc@, pc@) is None,
        decreases sc.len() + 1 - i,
    {
        if occurs_at(&sc, &pc, i) {
            return true;
        }
        if i == sc.len() {
            proof {
                assert(sc@.skip(i as int).len() == 0);
            }
            return false;
        } else {
            proof {
                lemma_first_step(sc@, pc@, i as int);
            }
            i = i + 1;
        }
    }
    false
}

} // verus!
