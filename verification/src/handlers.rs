//! The built-in tools' own logic: reading their arguments, planning their
//! work, matching file names and file contents, and shaping what they
//! report. The front end walks directories, reads and writes files and runs
//! processes as a plan says, and serializes the reports.

use vstd::prelude::*;

use crate::llm::opt_view;
use crate::trace::{lines_of, text_lines};
use crate::text::{byte_len, byte_len_of, chars_of, decimal, decimal_of, push_range, string_of};
use crate::tools::{
    byte_boundary, char_at_byte, edit_of, on_boundary, plan_edit, resolve_path, resolved_path,
    truncate_to, truncated, BuiltinTool, EditPlan, EditPlanView,
};

verus! {

/// The arguments of a built-in tool call, as far as the tools read them:
/// each text argument when it is a JSON string, each count when it is an
/// unsigned JSON integer.
#[derive(Debug, Clone)]
pub struct ToolArgs {
    pub path: Option<String>,
    pub content: Option<String>,
    pub old_text: Option<String>,
    pub new_text: Option<String>,
    pub command: Option<String>,
    pub cwd: Option<String>,
    pub timeout_secs: Option<u64>,
    pub pattern: Option<String>,
    pub max_results: Option<u64>,
}

/// What a built-in tool call is to do. `shown` is a path as the call gave
/// it, `path` the same path resolved against the repository root.
#[derive(Debug, Clone)]
pub enum ToolPlan {
    /// Read a file.
    ReadFile { shown: String, path: String },
    /// Write `content` to a file, creating its parent directories.
    WriteFile { shown: String, path: String, content: String },
    /// Replace the one occurrence of `old_text` in a file by `new_text`.
    EditFile { shown: String, path: String, old_text: String, new_text: String },
    /// Run `command` with `sh -c` in `cwd`, for at most `timeout_secs`.
    Bash { command: String, cwd: String, timeout_secs: u64 },
    /// List the files under `base` whose path matches a glob pattern.
    Glob { pattern: String, base: String },
    /// List the lines of the files under `base` that match a regex.
    Grep { pattern: String, base: String, max_results: u64 },
    /// Run `git status --porcelain=v1` in `cwd`.
    GitStatus { cwd: String },
}

/// The error of a missing (or non-string) argument.
pub open spec fn missing_arg(field: Seq<char>) -> Seq<char> {
    "missing or invalid '"@ + field + "' argument"@
}

/// The directory a tool works in: the one given, else the repository root,
/// else `.`.
pub open spec fn work_dir(given: Option<Seq<char>>, root: Option<Seq<char>>) -> Seq<char> {
    match given {
        Some(d) => d,
        None => match root {
            Some(r) => r,
            None => "."@,
        },
    }
}

/// The timeout of a command when none is given, in seconds.
pub const DEFAULT_TIMEOUT_SECS: u64 = 120;

/// The most matches `grep` reports when no limit is given.
pub const DEFAULT_MAX_RESULTS: u64 = 100;

fn missing(field: &str) -> (m: String)
    ensures
        m@ == missing_arg(field@),
{
    String::from_str("missing or invalid '").concat(field).concat("' argument")
}

fn work_dir_of(given: &Option<String>, root: &Option<String>) -> (d: String)
    ensures
        d@ == work_dir(opt_view(*given), opt_view(*root)),
{
    match given {
        Some(d) => d.clone(),
        None => match root {
            Some(r) => r.clone(),
            None => String::from_str("."),
        },
    }
}

/// Plan a built-in tool call from its arguments: the first required
/// argument that is missing, in the order the tool reads them, is the
/// error.
pub fn plan_tool(tool: BuiltinTool, args: &ToolArgs, repo_root: &Option<String>) -> (r: Result<ToolPlan, String>)
    ensures
        match tool {
            BuiltinTool::ReadFile => match args.path {
                Some(p) => r matches Ok(ToolPlan::ReadFile { shown, path }) && shown@ == p@ && path@
                    == resolved_path(p@, opt_view(*repo_root)),
                None => r matches Err(m) && m@ == missing_arg("path"@),
            },
            BuiltinTool::WriteFile => match (args.path, args.content) {
                (Some(p), Some(c)) => r matches Ok(ToolPlan::WriteFile { shown, path, content })
                    && shown@ == p@ && path@ == resolved_path(p@, opt_view(*repo_root)) && content@
                    == c@,
                (None, _) => r matches Err(m) && m@ == missing_arg("path"@),
                (Some(_), None) => r matches Err(m) && m@ == missing_arg("content"@),
            },
            BuiltinTool::EditFile => match (args.path, args.old_text, args.new_text) {
                (Some(p), Some(o), Some(n)) => r matches Ok(
                    ToolPlan::EditFile { shown, path, old_text, new_text },
                ) && shown@ == p@ && path@ == resolved_path(p@, opt_view(*repo_root)) && old_text@
                    == o@ && new_text@ == n@,
                (None, _, _) => r matches Err(m) && m@ == missing_arg("path"@),
                (Some(_), None, _) => r matches Err(m) && m@ == missing_arg("old_text"@),
                (Some(_), Some(_), None) => r matches Err(m) && m@ == missing_arg("new_text"@),
            },
            BuiltinTool::Bash => match args.command {
                Some(c) => r matches Ok(ToolPlan::Bash { command, cwd, timeout_secs }) && command@
                    == c@ && cwd@ == work_dir(opt_view(args.cwd), opt_view(*repo_root))
                    && timeout_secs == match args.timeout_secs {
                    Some(t) => t,
                    None => DEFAULT_TIMEOUT_SECS,
                },
                None => r matches Err(m) && m@ == missing_arg("command"@),
            },
            BuiltinTool::Glob => match args.pattern {
                Some(p) => r matches Ok(ToolPlan::Glob { pattern, base }) && pattern@ == p@ && base@
                    == work_dir(opt_view(args.path), opt_view(*repo_root)),
                None => r matches Err(m) && m@ == missing_arg("pattern"@),
            },
            BuiltinTool::Grep => match args.pattern {
                Some(p) => r matches Ok(ToolPlan::Grep { pattern, base, max_results }) && pattern@
                    == p@ && base@ == work_dir(opt_view(args.path), opt_view(*repo_root))
                    && max_results == match args.max_results {
                    Some(m) => m,
                    None => DEFAULT_MAX_RESULTS,
                },
                None => r matches Err(m) && m@ == missing_arg("pattern"@),
            },
            BuiltinTool::GitStatus => r matches Ok(ToolPlan::GitStatus { cwd }) && cwd@ == work_dir(
                opt_view(args.path),
                opt_view(*repo_root),
            ),
        },
{
    match tool {
        BuiltinTool::ReadFile => match &args.path {
            Some(p) => Ok(ToolPlan::ReadFile { shown: p.clone(), path: resolve_path(p.as_str(), repo_root) }),
            None => Err(missing("path")),
        },
        BuiltinTool::WriteFile => match (&args.path, &args.content) {
            (Some(p), Some(c)) => Ok(
                ToolPlan::WriteFile {
                    shown: p.clone(),
                    path: resolve_path(p.as_str(), repo_root),
                    content: c.clone(),
                },
            ),
            (None, _) => Err(missing("path")),
            (Some(_), None) => Err(missing("content")),
        },
        BuiltinTool::EditFile => match (&args.path, &args.old_text, &args.new_text) {
            (Some(p), Some(o), Some(n)) => Ok(
                ToolPlan::EditFile {
                    shown: p.clone(),
                    path: resolve_path(p.as_str(), repo_root),
                    old_text: o.clone(),
                    new_text: n.clone(),
                },
            ),
            (None, _, _) => Err(missing("path")),
            (Some(_), None, _) => Err(missing("old_text")),
            (Some(_), Some(_), None) => Err(missing("new_text")),
        },
        BuiltinTool::Bash => match &args.command {
            Some(c) => Ok(
                ToolPlan::Bash {
                    command: c.clone(),
                    cwd: work_dir_of(&args.cwd, repo_root),
                    timeout_secs: match args.timeout_secs {
                        Some(t) => t,
                        None => DEFAULT_TIMEOUT_SECS,
                    },
                },
            ),
            None => Err(missing("command")),
        },
        BuiltinTool::Glob => match &args.pattern {
            Some(p) => Ok(ToolPlan::Glob { pattern: p.clone(), base: work_dir_of(&args.path, repo_root) }),
            None => Err(missing("pattern")),
        },
        BuiltinTool::Grep => match &args.pattern {
            Some(p) => Ok(
                ToolPlan::Grep {
                    pattern: p.clone(),
                    base: work_dir_of(&args.path, repo_root),
                    max_results: match args.max_results {
                        Some(m) => m,
                        None => DEFAULT_MAX_RESULTS,
                    },
                },
            ),
            None => Err(missing("pattern")),
        },
        BuiltinTool::GitStatus => Ok(ToolPlan::GitStatus { cwd: work_dir_of(&args.path, repo_root) }),
    }
}

// ---------------------------------------------------------------------------
// read_file
// ---------------------------------------------------------------------------

/// The most bytes of a file that `read_file` shows.
pub const READ_LIMIT: usize = 100_000;

/// The note that follows a cut file's content. Its braces are part of the
/// text: the size is not filled in.
pub const READ_CUT_NOTE: &'static str = "\n[truncated: file is {len} bytes]";

/// A text cut to its first `n` bytes, when it is longer.
pub open spec fn cut_to(s: Seq<char>, n: nat) -> Seq<char> {
    if byte_len(s) > n {
        match char_at_byte(s, n) {
            Some(k) => s.take(k),
            None => s,
        }
    } else {
        s
    }
}

/// What `read_file` reports.
#[derive(Debug, Clone)]
pub struct ReadReport {
    /// The path as the call gave it.
    pub shown: String,
    /// The text shown.
    pub content: String,
    /// The size of the file, in bytes.
    pub bytes: usize,
    /// Whether the text was cut.
    pub truncated: bool,
}

/// The report of a file of `bytes` bytes whose text (with U+FFFD in place
/// of what is not UTF-8) is `text`: a file over the limit has its text cut
/// to the limit, followed by the cut note. The cut must fall between two
/// characters.
pub fn read_report(shown: String, bytes: usize, text: String) -> (r: ReadReport)
    requires
        bytes > READ_LIMIT && byte_len(text@) > READ_LIMIT ==> on_boundary(text@, READ_LIMIT as nat),
    ensures
        r.shown@ == shown@,
        r.bytes == bytes,
        r.truncated == (bytes > READ_LIMIT),
        r.content@ == if bytes > READ_LIMIT {
            cut_to(text@, READ_LIMIT as nat) + READ_CUT_NOTE@
        } else {
            text@
        },
{
    if bytes > READ_LIMIT {
        let cs = chars_of(text.as_str());
        let kept = if byte_len_of(&cs) > READ_LIMIT as u128 {
            match byte_boundary(&cs, READ_LIMIT) {
                Some(k) => {
                    let mut v: Vec<char> = Vec::new();
                    push_range(&mut v, &cs, 0, k);
                    assert(v@ =~= cs@.take(k as int));
                    v
                },
                None => cs,
            }
        } else {
            cs
        };
        let content = string_of(&kept).concat(READ_CUT_NOTE);
        ReadReport { shown, content, bytes, truncated: true }
    } else {
        ReadReport { shown, content: text, bytes, truncated: false }
    }
}

// ---------------------------------------------------------------------------
// edit_file
// ---------------------------------------------------------------------------

/// What `edit_file` reports.
#[derive(Debug, Clone)]
pub enum EditReport {
    /// The file is to be written with `content`.
    Applied { shown: String, content: String },
    /// The edit is refused.
    Refused { shown: String, error: String },
}

/// The outcome of replacing `old_text` by `new_text` in a file's content:
/// refused unless `old_text` occurs exactly once.
pub fn edit_report(shown: &str, content: &str, old_text: &str, new_text: &str) -> (r: EditReport)
    requires
        content@.len() < usize::MAX,
    ensures
        match edit_of(content@, old_text@, new_text@) {
            EditPlanView::NotFound => r matches EditReport::Refused { shown: s, error } && s@ == shown@
                && error@ == "old_text not found in "@ + shown@,
            EditPlanView::NotUnique(n) => r matches EditReport::Refused { shown: s, error } && s@
                == shown@ && error@ == "old_text matches "@ + decimal(n) + " times in "@ + shown@
                + "; must be unique"@,
            EditPlanView::Replaced(c) => r matches EditReport::Applied { shown: s, content: nc } && s@
                == shown@ && nc@ == c,
        },
{
    match plan_edit(content, old_text, new_text) {
        EditPlan::NotFound => EditReport::Refused {
            shown: String::from_str(shown),
            error: String::from_str("old_text not found in ").concat(shown),
        },
        EditPlan::NotUnique(n) => {
            let digits = string_of(&decimal_of(n as u64));
            EditReport::Refused {
                shown: String::from_str(shown),
                error: String::from_str("old_text matches ").concat(digits.as_str()).concat(
                    " times in ",
                ).concat(shown).concat("; must be unique"),
            }
        },
        EditPlan::Replaced(c) => EditReport::Applied { shown: String::from_str(shown), content: c },
    }
}

// ---------------------------------------------------------------------------
// bash
// ---------------------------------------------------------------------------

/// The most bytes of each output stream that `bash` reports.
pub const OUTPUT_LIMIT: usize = 50_000;

/// What `bash` reports.
#[derive(Debug, Clone)]
pub enum BashReport {
    /// The command ran to its end.
    Finished { exit_code: i32, stdout: String, stderr: String, duration_ms: u64 },
    /// The command could not be waited for, or ran out of time.
    Failed { exit_code: i32, stderr: String },
}

impl BashReport {
    /// Whether the command succeeded: it finished with exit code 0.
    pub fn ok(&self) -> (b: bool)
        ensures
            b == (self matches BashReport::Finished { exit_code, .. } && exit_code == 0),
    {
        match self {
            BashReport::Finished { exit_code, .. } => *exit_code == 0,
            BashReport::Failed { .. } => false,
        }
    }
}

/// The report of a command that finished: its exit code (-1 when it has
/// none, as when a signal ended it), and its output streams cut to the
/// limit with a note. Each cut must fall between two characters.
pub fn bash_finished(code: Option<i32>, stdout: String, stderr: String, duration_ms: u64) -> (r: BashReport)
    requires
        byte_len(stdout@) > OUTPUT_LIMIT ==> on_boundary(stdout@, OUTPUT_LIMIT as nat),
        byte_len(stderr@) > OUTPUT_LIMIT ==> on_boundary(stderr@, OUTPUT_LIMIT as nat),
    ensures
        r matches BashReport::Finished { exit_code, stdout: o, stderr: e, duration_ms: d } && exit_code
            == match code {
            Some(c) => c,
            None => -1i32,
        } && o@ == truncated(stdout@, OUTPUT_LIMIT as nat) && e@ == truncated(
            stderr@,
            OUTPUT_LIMIT as nat,
        ) && d == duration_ms,
{
    let mut out = stdout;
    let mut err = stderr;
    truncate_to(&mut out, OUTPUT_LIMIT);
    truncate_to(&mut err, OUTPUT_LIMIT);
    let exit_code = match code {
        Some(c) => c,
        None => -1i32,
    };
    BashReport::Finished { exit_code, stdout: out, stderr: err, duration_ms }
}

/// The report of a command that ran out of time: exit code 124.
pub fn bash_timed_out(timeout_secs: u64) -> (r: BashReport)
    ensures
        r matches BashReport::Failed { exit_code, stderr } && exit_code == 124 && stderr@
            == "timed out after "@ + decimal(timeout_secs as nat) + "s"@,
{
    let digits = string_of(&decimal_of(timeout_secs));
    BashReport::Failed {
        exit_code: 124,
        stderr: String::from_str("timed out after ").concat(digits.as_str()).concat("s"),
    }
}

/// The report of a command that could not be waited for: exit code -1 and
/// the error's message.
pub fn bash_wait_failed(message: String) -> (r: BashReport)
    ensures
        r matches BashReport::Failed { exit_code, stderr } && exit_code == -1 && stderr@ == message@,
{
    BashReport::Failed { exit_code: -1, stderr: message }
}

// ---------------------------------------------------------------------------
// grep
// ---------------------------------------------------------------------------

/// What `regex::Regex::new` says of a pattern: `None` when it compiles,
/// else the text of its error.
pub uninterp spec fn regex_problem(pattern: Seq<char>) -> Option<Seq<char>>;

/// Whether `regex::Regex::is_match` finds a match of a pattern somewhere in
/// a text.
pub uninterp spec fn regex_accepts(pattern: Seq<char>, text: Seq<char>) -> bool;

/// A compiled regex, with the pattern it was compiled from.
#[derive(Debug)]
pub struct LinePattern {
    pattern: String,
    re: regex::Regex,
}

impl LinePattern {
    /// The pattern it was compiled from.
    pub closed spec fn source(&self) -> Seq<char> {
        self.pattern@
    }

    /// `regex::Regex::is_match`: whether the pattern matches somewhere in
    /// the text. Claimed: the answer is `regex_accepts` of the pattern the
    /// regex was compiled from and the text.
    #[verifier::external_body]
    fn accepts(&self, text: &str) -> (b: bool)
        ensures
            b == regex_accepts(self.source(), text@),
    {
        self.re.is_match(text)
    }
}

/// `regex::Regex::new`: the compiled pattern, or the text of the error.
/// Claimed: it compiles exactly when `regex_problem` is `None`, and the
/// error's text is what `regex_problem` gives.
#[verifier::external_body]
fn compile_regex(pattern: &str) -> (r: Result<LinePattern, String>)
    ensures
        match r {
            Ok(lp) => lp.source() == pattern@ && regex_problem(pattern@) is None,
            Err(e) => regex_problem(pattern@) == Some(e@),
        },
{
    match regex::Regex::new(pattern) {
        Ok(re) => Ok(LinePattern { pattern: pattern.to_string(), re }),
        Err(e) => Err(e.to_string()),
    }
}

/// Compile a `grep` pattern; an invalid one is refused with the regex's
/// error.
pub fn grep_pattern(pattern: &str) -> (r: Result<LinePattern, String>)
    ensures
        match regex_problem(pattern@) {
            None => r matches Ok(lp) && lp.source() == pattern@,
            Some(e) => r matches Err(m) && m@ == "invalid regex: "@ + e,
        },
{
    match compile_regex(pattern) {
        Ok(lp) => Ok(lp),
        Err(e) => Err(String::from_str("invalid regex: ").concat(e.as_str())),
    }
}

/// A matching line of a file.
#[derive(Debug, Clone)]
pub struct GrepHit {
    /// The file, relative to the search's base.
    pub path: String,
    /// The line's number, from 1.
    pub line: usize,
    /// The line's text.
    pub content: String,
}

impl GrepHit {
    pub open spec fn view(&self) -> (Seq<char>, int, Seq<char>) {
        (self.path@, self.line as int, self.content@)
    }
}

/// The hits of a file's lines: (file, line number, text) for each line the
/// pattern matches, in order.
pub open spec fn file_hits(pattern: Seq<char>, file: Seq<char>, lines: Seq<Seq<char>>) -> Seq<(Seq<char>, int, Seq<char>)>
    decreases lines.len(),
{
    if lines.len() == 0 {
        Seq::empty()
    } else {
        let rest = file_hits(pattern, file, lines.drop_last());
        if regex_accepts(pattern, lines.last()) {
            rest.push((file, lines.len() as int, lines.last()))
        } else {
            rest
        }
    }
}

/// How many of a file's `hits` are kept when `have` results are already
/// there and the limit is `max`: all of them, or as many as reach the
/// limit, and at least one.
pub open spec fn hits_kept(hits: int, have: int, max: int) -> int {
    if hits == 0 {
        0
    } else {
        let room = if max - have >= 1 {
            max - have
        } else {
            1
        };
        if hits < room {
            hits
        } else {
            room
        }
    }
}

proof fn lemma_hits_prefix(pattern: Seq<char>, file: Seq<char>, lines: Seq<Seq<char>>, i: int)
    requires
        0 <= i <= lines.len(),
    ensures
        file_hits(pattern, file, lines.take(i)).len() <= file_hits(pattern, file, lines).len(),
        file_hits(pattern, file, lines.take(i)) == file_hits(pattern, file, lines).take(
            file_hits(pattern, file, lines.take(i)).len() as int,
        ),
    decreases lines.len() - i,
{
    if i == lines.len() {
        assert(lines.take(i) =~= lines);
    } else {
        lemma_hits_prefix(pattern, file, lines, i + 1);
        let a = file_hits(pattern, file, lines.take(i));
        let b = file_hits(pattern, file, lines.take(i + 1));
        let t = file_hits(pattern, file, lines);
        assert(lines.take(i + 1).drop_last() =~= lines.take(i));
        assert(lines.take(i + 1).last() == lines[i]);
        assert(a =~= b.take(a.len() as int));
        assert(a.len() <= b.len());
        assert forall|j: int| 0 <= j < a.len() implies a[j] == t[j] by {
            assert(a[j] == b[j]);
            assert(b[j] == t.take(b.len() as int)[j]);
        }
        assert(a =~= t.take(a.len() as int));
    }
}

/// Add the matching lines of a file to the results, stopping once the
/// results reach `max`. Gives whether the search is done: the results have
/// reached `max`, so no further file is read.
#[verifier::loop_isolation(false)]
pub fn grep_file(re: &LinePattern, rel: &str, content: &str, max: u64, results: &mut Vec<GrepHit>) -> (done: bool)
    ensures
        done == (final(results)@.len() >= max),
        ({
            let hits = file_hits(re.source(), rel@, lines_of(content@));
            let k = hits_kept(hits.len() as int, old(results)@.len() as int, max as int);
            final(results)@.map_values(|h: GrepHit| h.view()) == old(results)@.map_values(
                |h: GrepHit| h.view(),
            ) + hits.take(k)
        }),
{
    let lines = text_lines(content);
    let ghost lv = lines@.map_values(|l: Vec<char>| l@);
    let ghost start = results@.map_values(|h: GrepHit| h.view());
    let ghost p = re.source();
    let mut i: usize = 0;
    let mut stop = false;
    while i < lines.len() && !stop
        invariant
            i <= lv.len(),
            lv == lines@.map_values(|l: Vec<char>| l@),
            lv == lines_of(content@),
            results@.map_values(|h: GrepHit| h.view()) == start + file_hits(p, rel@, lv.take(i as int)),
            ({
                let h = file_hits(p, rel@, lv.take(i as int)).len();
                &&& h == 0 || h == 1 || start.len() + h - 1 < max
                &&& !stop ==> (h == 0 || start.len() + h < max)
                &&& stop ==> (h >= 1 && start.len() + h >= max)
            }),
        decreases lines.len() - i,
    {
        let ghost before = results@.map_values(|h: GrepHit| h.view());
        proof {
            assert(lv.take(i + 1).drop_last() =~= lv.take(i as int));
            assert(lv.take(i + 1).last() == lines@[i as int]@);
        }
        let text = string_of(&lines[i]);
        if re.accepts(text.as_str()) {
            results.push(GrepHit { path: String::from_str(rel), line: i + 1, content: text });
            proof {
                assert(results@.map_values(|h: GrepHit| h.view()) =~= before.push(
                    (rel@, i + 1, lines@[i as int]@),
                ));
            }
            stop = results.len() as u64 >= max;
        }
        i = i + 1;
    }
    proof {
        let total = file_hits(p, rel@, lv);
        let found = file_hits(p, rel@, lv.take(i as int));
        lemma_hits_prefix(p, rel@, lv, i as int);
        assert(found == total.take(found.len() as int));
        assert(found.len() <= total.len());
        assert(start.len() == old(results)@.len());
        if !stop {
            assert(lv.take(i as int) =~= lv);
            assert(found == total);
            assert(hits_kept(total.len() as int, start.len() as int, max as int) == total.len());
            assert(total.take(total.len() as int) =~= total);
        } else {
            assert(hits_kept(total.len() as int, start.len() as int, max as int) == found.len());
        }
    }
    results.len() as u64 >= max
}

/// A search that has not reached its limit stays within it after another
/// file, and one that has reached it grows by at most one result per file.
pub proof fn law_grep_stays_within_limit(hits: int, have: int, max: int)
    requires
        hits >= 0,
        have >= 0,
    ensures
        have < max ==> have + hits_kept(hits, have, max) <= max,
        have >= max ==> hits_kept(hits, have, max) <= 1,
        0 <= hits_kept(hits, have, max) <= hits,
{
}

// ---------------------------------------------------------------------------
// glob
// ---------------------------------------------------------------------------

/// The most files `glob` reports.
pub const GLOB_LIMIT: usize = 200;

/// What `globset::Glob::new` says of a pattern: `None` when it is valid,
/// else the text of its error.
pub uninterp spec fn glob_problem(pattern: Seq<char>) -> Option<Seq<char>>;

/// What `globset::GlobSetBuilder::build` says of the set holding the one
/// glob a valid pattern parses to: `None` when it builds, else the text of
/// its error (its matching regex may exceed `globset`'s size limit).
pub uninterp spec fn glob_set_problem(pattern: Seq<char>) -> Option<Seq<char>>;

/// Whether `globset::GlobSet::is_match` accepts a path for the set holding
/// the one glob of a pattern.
pub uninterp spec fn glob_accepts(pattern: Seq<char>, path: Seq<char>) -> bool;

/// Bytes a pattern may hold: `globset` builds an Aho-Corasick automaton
/// over a pattern's literal part, with one state per byte, and unwraps it;
/// the automaton holds fewer than 2^31 states.
pub const GLOB_MAX_BYTES: usize = 0x4000_0000;

/// A compiled glob pattern, with the pattern it was compiled from.
#[derive(Debug)]
pub struct GlobPattern {
    pattern: String,
    set: globset::GlobSet,
}

impl GlobPattern {
    /// The pattern it was compiled from.
    pub closed spec fn source(&self) -> Seq<char> {
        self.pattern@
    }

    /// `globset::GlobSet::is_match`. Claimed: the answer is `glob_accepts`
    /// of the pattern the set was built from and the path.
    #[verifier::external_body]
    fn accepts(&self, path: &str) -> (b: bool)
        ensures
            b == glob_accepts(self.source(), path@),
    {
        self.set.is_match(path)
    }

    /// Whether `glob` reports a file: the pattern accepts its path relative
    /// to the base, or its full path.
    pub fn selects(&self, rel: &str, full: &str) -> (b: bool)
        ensures
            b == (glob_accepts(self.source(), rel@) || glob_accepts(self.source(), full@)),
    {
        self.accepts(rel) || self.accepts(full)
    }
}

/// `globset::Glob::new`, then `GlobSetBuilder::new().add(..).build()`: the
/// set of the one glob, or the text of the first error. Claimed: it builds
/// exactly when `glob_problem` and then `glob_set_problem` are `None`, and an
/// error's text is what the failing one gives.
#[verifier::external_body]
fn compile_glob(pattern: &str) -> (r: Result<GlobPattern, String>)
    requires
        byte_len(pattern@) < GLOB_MAX_BYTES,
    ensures
        match r {
            Ok(g) => g.source() == pattern@ && glob_problem(pattern@) is None && glob_set_problem(
                pattern@,
            ) is None,
            Err(e) => glob_problem(pattern@) == Some(e@) || (glob_problem(pattern@) is None
                && glob_set_problem(pattern@) == Some(e@)),
        },
{
    let g = globset::Glob::new(pattern).map_err(|e| e.to_string())?;
    let set = globset::GlobSetBuilder::new().add(g).build().map_err(|e| e.to_string())?;
    Ok(GlobPattern { pattern: pattern.to_string(), set })
}

/// Take a walked file into the `glob` results: its relative path is added
/// when the pattern selects it. Gives whether the results are full, at
/// `GLOB_LIMIT` files, so that the walk stops.
pub fn glob_take(glob: &GlobPattern, matches: &mut Vec<String>, rel: String, full: &str) -> (done: bool)
    requires
        old(matches)@.len() < GLOB_LIMIT,
    ensures
        final(matches)@ == if glob_accepts(glob.source(), rel@) || glob_accepts(glob.source(), full@) {
            old(matches)@.push(rel)
        } else {
            old(matches)@
        },
        done == (final(matches)@.len() >= GLOB_LIMIT),
{
    if glob.selects(rel.as_str(), full) {
        matches.push(rel);
    }
    matches.len() >= GLOB_LIMIT
}

/// Compile a `glob` pattern; an invalid one, or one whose matcher cannot be
/// built, is refused with the error.
pub fn glob_pattern(pattern: &str) -> (r: Result<GlobPattern, String>)
    requires
        byte_len(pattern@) < GLOB_MAX_BYTES,
    ensures
        match glob_problem(pattern@) {
            Some(e) => r matches Err(m) && m@ == "invalid glob pattern: "@ + e,
            None => match glob_set_problem(pattern@) {
                Some(e) => r matches Err(m) && m@ == "invalid glob pattern: "@ + e,
                None => r matches Ok(g) && g.source() == pattern@,
            },
        },
{
    match compile_glob(pattern) {
        Ok(g) => Ok(g),
        Err(e) => Err(String::from_str("invalid glob pattern: ").concat(e.as_str())),
    }
}

} // verus!
