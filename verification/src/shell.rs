//! Shells: their specs, commands, outputs and transcripts; the registry of
//! the shells a process-backed manager runs (which shell runs what, and
//! what it recorded); and where a worktree goes.
//!
//! Starting processes and running `git` is the front end's; it asks here
//! whether a shell may run a command and records the outcome here.

use vstd::prelude::*;

use crate::outside::{new_id, now, Timestamp};
use crate::text::{decimal, decimal_of, hex_digits, hex_digits_of, string_of, uuid_string, uuid_text};
use crate::tools::{resolve_path, resolved_path};

verus! {

/// What a shell is spawned with.
#[derive(Debug, Clone)]
pub struct ShellSpec {
    pub cwd: String,
    /// Environment variables, as (name, value) pairs.
    pub env: Vec<(String, String)>,
    pub read_only: bool,
    pub label: Option<String>,
}

/// A command for a shell.
#[derive(Debug, Clone)]
pub struct ShellCommand {
    pub command: String,
    pub timeout_secs: Option<u64>,
}

/// What a command produced.
#[derive(Debug, Clone)]
pub struct ShellOutput {
    pub exit_code: i32,
    pub stdout: String,
    pub stderr: String,
    pub duration_ms: u64,
}

/// An entry of a shell's transcript.
#[derive(Debug, Clone)]
pub enum ShellEvent {
    Spawned { shell_id: u128, spec: ShellSpec, at: Timestamp },
    CommandExecuted { command: ShellCommand, output: ShellOutput, at: Timestamp },
    Closed { at: Timestamp },
}

/// A worktree to create.
#[derive(Debug, Clone)]
pub struct WorktreeSpec {
    pub repo_root: String,
    pub branch: Option<String>,
    pub read_only: bool,
    pub label: Option<String>,
}

/// A worktree created, with the shell bound to it.
#[derive(Debug, Clone)]
pub struct WorktreeHandle {
    pub path: String,
    pub shell_id: u128,
    pub read_only: bool,
}

fn copy_opt(o: &Option<String>) -> (r: Option<String>)
    ensures
        r == *o,
{
    match o {
        Some(s) => Some(s.clone()),
        None => None,
    }
}

fn copy_pairs(v: &Vec<(String, String)>) -> (r: Vec<(String, String)>)
    ensures
        r@ == v@,
{
    let mut r: Vec<(String, String)> = Vec::new();
    let mut i: usize = 0;
    while i < v.len()
        invariant
            i <= v@.len(),
            r@ == v@.take(i as int),
        decreases v.len() - i,
    {
        r.push((v[i].0.clone(), v[i].1.clone()));
        i = i + 1;
        proof {
            assert(v@.take(i as int) =~= v@.take(i - 1).push(v@[i - 1]));
        }
    }
    assert(v@.take(i as int) =~= v@);
    r
}

impl ShellSpec {
    /// Whether two specs say the same.
    pub open spec fn agrees(&self, other: ShellSpec) -> bool {
        &&& self.cwd == other.cwd
        &&& self.env@ == other.env@
        &&& self.read_only == other.read_only
        &&& self.label == other.label
    }

    /// A copy of the spec.
    pub fn duplicate(&self) -> (s: ShellSpec)
        ensures
            s.agrees(*self),
    {
        ShellSpec {
            cwd: self.cwd.clone(),
            env: copy_pairs(&self.env),
            read_only: self.read_only,
            label: copy_opt(&self.label),
        }
    }
}

/// The timeout of a command: its own, or 120 seconds.
pub fn timeout_of(cmd: &ShellCommand) -> (secs: u64)
    ensures
        secs == match cmd.timeout_secs {
            Some(t) => t,
            None => 120,
        },
{
    match cmd.timeout_secs {
        Some(t) => t,
        None => 120,
    }
}

/// What a command that ran out of time gives: exit code 124 and a note of
/// the timeout.
pub fn timed_out(timeout_secs: u64, duration_ms: u64) -> (o: ShellOutput)
    ensures
        o.exit_code == 124,
        o.stdout@.len() == 0,
        o.stderr@ == "command timed out after "@ + decimal(timeout_secs as nat) + "s"@,
        o.duration_ms == duration_ms,
{
    let digits = string_of(&decimal_of(timeout_secs));
    ShellOutput {
        exit_code: 124,
        stdout: String::new(),
        stderr: String::from_str("command timed out after ").concat(digits.as_str()).concat("s"),
        duration_ms,
    }
}

/// Why the manager refused a request.
#[derive(Debug, Clone, Copy)]
pub enum ShellError {
    /// No shell has this ID.
    UnknownShell(u128),
    /// The shell is read-only.
    ReadOnly(u128),
}

impl ShellError {
    /// The error's message.
    pub fn message(&self) -> (m: String)
        ensures
            match self {
                ShellError::UnknownShell(id) => m@ == "unknown shell "@ + uuid_text(*id),
                ShellError::ReadOnly(id) => m@ == "shell "@ + uuid_text(*id)
                    + " is read-only; command rejected"@,
            },
    {
        match self {
            ShellError::UnknownShell(id) => String::from_str("unknown shell ").concat(
                uuid_string(*id).as_str(),
            ),
            ShellError::ReadOnly(id) => String::from_str("shell ").concat(uuid_string(*id).as_str()).concat(
                " is read-only; command rejected",
            ),
        }
    }
}

/// Whether a transcript records its shell's closing.
pub open spec fn has_closed(t: Seq<ShellEvent>) -> bool {
    exists|k: int| 0 <= k < t.len() && t[k] is Closed
}

fn has_closed_event(t: &Vec<ShellEvent>) -> (b: bool)
    ensures
        b == has_closed(t@),
{
    let mut i: usize = 0;
    while i < t.len()
        invariant
            i <= t@.len(),
            forall|k: int| 0 <= k < i ==> !(t@[k] is Closed),
        decreases t.len() - i,
    {
        if let ShellEvent::Closed { .. } = &t[i] {
            return true;
        }
        i = i + 1;
    }
    false
}

/// A shell the registry tracks: its spec and its transcript.
struct ShellRecord {
    spec: ShellSpec,
    transcript: Vec<ShellEvent>,
}

/// The shells a manager runs, by ID: for each, its spec and its
/// transcript.
pub struct ShellRegistry {
    shells: std::collections::HashMap<u128, ShellRecord>,
}

impl ShellRegistry {
    /// The shells, by ID: each one's spec and transcript.
    pub closed spec fn shells(&self) -> Map<u128, (ShellSpec, Seq<ShellEvent>)> {
        self.shells@.map_values(|r: ShellRecord| (r.spec, r.transcript@))
    }

    /// A registry with no shell.
    pub fn new() -> (r: ShellRegistry)
        ensures
            r.shells() == Map::<u128, (ShellSpec, Seq<ShellEvent>)>::empty(),
    {
        let r = ShellRegistry { shells: std::collections::HashMap::new() };
        assert(r.shells() =~= Map::<u128, (ShellSpec, Seq<ShellEvent>)>::empty());
        r
    }

    /// Spawn a shell: a fresh ID whose transcript starts with its spawning.
    /// Gives the ID.
    pub fn spawn_shell(&mut self, spec: ShellSpec) -> (id: u128)
        ensures
            final(self).shells().dom() == old(self).shells().dom().insert(id),
            final(self).shells().remove(id) == old(self).shells().remove(id),
            final(self).shells()[id].0 == spec,
            final(self).shells()[id].1.len() == 1,
            final(self).shells()[id].1[0] matches ShellEvent::Spawned { shell_id, spec: s, .. } && shell_id
                == id && s.agrees(spec),
    {
        broadcast use vstd::std_specs::hash::group_hash_axioms;
        let id = new_id();
        let mut events: Vec<ShellEvent> = Vec::new();
        events.push(ShellEvent::Spawned { shell_id: id, spec: spec.duplicate(), at: now() });
        let ghost m0 = self.shells@;
        let rec = ShellRecord { spec, transcript: events };
        self.shells.insert(id, rec);
        proof {
            assert(self.shells@ == m0.insert(id, rec));
            assert(self.shells().dom() =~= old(self).shells().dom().insert(id));
            assert(self.shells().remove(id) =~= old(self).shells().remove(id));
        }
        id
    }

    /// Whether a shell may run a command: gives its spec when it exists and
    /// is writable.
    pub fn prepare_exec(&self, shell: u128) -> (r: Result<&ShellSpec, ShellError>)
        ensures
            if self.shells().contains_key(shell) {
                if self.shells()[shell].0.read_only {
                    r matches Err(ShellError::ReadOnly(s)) && s == shell
                } else {
                    r matches Ok(sp) && *sp == self.shells()[shell].0
                }
            } else {
                r matches Err(ShellError::UnknownShell(s)) && s == shell
            },
    {
        broadcast use vstd::std_specs::hash::group_hash_axioms;
        match self.shells.get(&shell) {
            Some(rec) => {
                if rec.spec.read_only {
                    Err(ShellError::ReadOnly(shell))
                } else {
                    Ok(&rec.spec)
                }
            },
            None => Err(ShellError::UnknownShell(shell)),
        }
    }

    fn push_event(&mut self, shell: u128, event: ShellEvent)
        ensures
            final(self).shells() == if old(self).shells().contains_key(shell) {
                old(self).shells().insert(
                    shell,
                    (old(self).shells()[shell].0, old(self).shells()[shell].1.push(event)),
                )
            } else {
                old(self).shells()
            },
    {
        broadcast use vstd::std_specs::hash::group_hash_axioms;
        let ghost m0 = self.shells@;
        match self.shells.remove(&shell) {
            Some(mut rec) => {
                let ghost r0 = rec;
                rec.transcript.push(event);
                self.shells.insert(shell, rec);
                proof {
                    assert(self.shells@ == m0.remove(shell).insert(shell, rec));
                    assert(self.shells() =~= old(self).shells().insert(
                        shell,
                        (old(self).shells()[shell].0, old(self).shells()[shell].1.push(event)),
                    ));
                }
            },
            None => {
                proof {
                    assert(self.shells@ =~= m0);
                }
            },
        }
    }

    /// Record a command a shell ran and its output, stamped now; nothing
    /// happens for an unknown shell.
    pub fn record_exec(&mut self, shell: u128, command: ShellCommand, output: ShellOutput)
        ensures
            final(self).shells().dom() == old(self).shells().dom(),
            final(self).shells().remove(shell) == old(self).shells().remove(shell),
            old(self).shells().contains_key(shell) ==> {
                let t = final(self).shells()[shell].1;
                &&& final(self).shells()[shell].0 == old(self).shells()[shell].0
                &&& t.drop_last() == old(self).shells()[shell].1
                &&& t.len() == old(self).shells()[shell].1.len() + 1
                &&& (t.last() matches ShellEvent::CommandExecuted { command: c, output: o, .. } && c
                    == command && o == output)
            },
    {
        let event = ShellEvent::CommandExecuted { command, output, at: now() };
        self.push_event(shell, event);
        proof {
            assert(self.shells().dom() =~= old(self).shells().dom());
            assert(self.shells().remove(shell) =~= old(self).shells().remove(shell));
            if old(self).shells().contains_key(shell) {
                assert(self.shells()[shell].1.drop_last() =~= old(self).shells()[shell].1);
            }
        }
    }

    /// The transcript of a shell.
    pub fn transcript(&self, shell: u128) -> (r: Result<&Vec<ShellEvent>, ShellError>)
        ensures
            if self.shells().contains_key(shell) {
                r matches Ok(t) && t@ == self.shells()[shell].1
            } else {
                r matches Err(ShellError::UnknownShell(s)) && s == shell
            },
    {
        broadcast use vstd::std_specs::hash::group_hash_axioms;
        match self.shells.get(&shell) {
            Some(rec) => Ok(&rec.transcript),
            None => Err(ShellError::UnknownShell(shell)),
        }
    }

    /// Close a shell: its transcript records the closing; nothing happens
    /// for an unknown shell.
    pub fn close(&mut self, shell: u128)
        ensures
            final(self).shells().dom() == old(self).shells().dom(),
            final(self).shells().remove(shell) == old(self).shells().remove(shell),
            old(self).shells().contains_key(shell) ==> {
                let t = final(self).shells()[shell].1;
                &&& final(self).shells()[shell].0 == old(self).shells()[shell].0
                &&& t.drop_last() == old(self).shells()[shell].1
                &&& t.len() == old(self).shells()[shell].1.len() + 1
                &&& t.last() is Closed
                &&& has_closed(t)
            },
    {
        let event = ShellEvent::Closed { at: now() };
        self.push_event(shell, event);
        proof {
            assert(self.shells().dom() =~= old(self).shells().dom());
            assert(self.shells().remove(shell) =~= old(self).shells().remove(shell));
            if old(self).shells().contains_key(shell) {
                let t = self.shells()[shell].1;
                assert(t.drop_last() =~= old(self).shells()[shell].1);
                assert(t[t.len() - 1] is Closed);
            }
        }
    }

    /// The IDs of the active shells, those not closed, each once, in no
    /// particular order.
    pub fn list_shells(&self) -> (ids: Vec<u128>)
        ensures
            ids@.no_duplicates(),
            forall|k: u128|
                #[trigger] ids@.contains(k) <==> (self.shells().contains_key(k) && !has_closed(
                    self.shells()[k].1,
                )),
    {
        broadcast use vstd::std_specs::hash::group_hash_axioms;
        let ghost sq = vstd::std_specs::iter::IteratorSpec::remaining(
            &vstd::std_specs::hash::spec_hash_map_iter(&self.shells),
        );
        let ghost mut cnt: int = 0;
        let mut r: Vec<u128> = Vec::new();
        for kv in it: self.shells.iter()
            invariant
                it.seq() == sq,
                cnt == it.index(),
                sq.no_duplicates(),
                sq.len() == self.shells@.dom().len(),
                forall|i: int|
                    0 <= i < sq.len() ==> self.shells@.contains_key(*sq[i].0) && self.shells@[*sq[i].0]
                        == *sq[i].1,
                forall|k: u128| self.shells@.contains_key(k) ==> sq.contains((&k, &self.shells@[k])),
                r@.no_duplicates(),
                forall|k: u128|
                    #[trigger] r@.contains(k) <==> exists|j: int|
                        0 <= j < cnt && *sq[j].0 == k && !has_closed(sq[j].1.transcript@),
        {
            let (k, rec) = kv;
            proof {
                assert(sq[cnt] == (k, rec));
            }
            let ghost r0 = r@;
            let closed = has_closed_event(&rec.transcript);
            if !closed {
                proof {
                    if r@.contains(*k) {
                        let j = choose|j: int|
                            0 <= j < cnt && *sq[j].0 == *k && !has_closed(sq[j].1.transcript@);
                        assert(sq[j] == sq[cnt]);
                    }
                }
                r.push(*k);
            }
            proof {
                let c = cnt;
                assert forall|x: u128|
                    #[trigger] r@.contains(x) <==> exists|j: int|
                        0 <= j < c + 1 && *sq[j].0 == x && !has_closed(sq[j].1.transcript@) by {
                    if r@.contains(x) {
                        if r0.contains(x) {
                            let j = choose|j: int|
                                0 <= j < c && *sq[j].0 == x && !has_closed(sq[j].1.transcript@);
                            assert(0 <= j < c + 1 && *sq[j].0 == x && !has_closed(sq[j].1.transcript@));
                        } else {
                            assert(!closed);
                            assert(r@ == r0.push(*k));
                            assert(x == *k);
                            assert(0 <= c < c + 1 && *sq[c].0 == x && !has_closed(sq[c].1.transcript@));
                        }
                    }
                    if exists|j: int| 0 <= j < c + 1 && *sq[j].0 == x && !has_closed(sq[j].1.transcript@) {
                        let j = choose|j: int|
                            0 <= j < c + 1 && *sq[j].0 == x && !has_closed(sq[j].1.transcript@);
                        if j < c {
                            assert(r0.contains(x));
                            if !closed {
                                assert(r@[r0.index_of(x)] == x);
                            }
                        } else {
                            assert(!closed);
                            assert(r@[r0.len() as int] == x);
                        }
                    }
                }
                cnt = cnt + 1;
            }
        }
        proof {
            assert(cnt == sq.len());
            assert forall|k: u128|
                #[trigger] r@.contains(k) <==> (self.shells().contains_key(k) && !has_closed(
                    self.shells()[k].1,
                )) by {
                if self.shells@.contains_key(k) {
                    let j = choose|j: int| 0 <= j < sq.len() && sq[j] == (&k, &self.shells@[k]);
                }
            }
        }
        r
    }
}

/// Where a worktree goes and on which branch: the directory
/// `.chimera/worktrees/<id>` under the repository root, a new branch
/// `chimera-<id>`, from the requested branch or `HEAD`.
#[derive(Debug, Clone)]
pub struct WorktreePlan {
    pub path: String,
    pub new_branch: String,
    pub base: String,
}

/// The worktree plan for a spec, a directory ID and a branch ID (each in
/// its 32-hex-digit form).
pub open spec fn worktree_plan_of(spec: WorktreeSpec, dir_id: u128, branch_id: u128) -> (Seq<char>, Seq<char>, Seq<char>) {
    (
        resolved_path(".chimera/worktrees/"@ + hex_digits(dir_id as nat, 32), Some(spec.repo_root@)),
        "chimera-"@ + hex_digits(branch_id as nat, 32),
        match spec.branch {
            Some(b) => b@,
            None => "HEAD"@,
        },
    )
}

/// Plan a worktree for a spec, with two fresh IDs.
pub fn plan_worktree(spec: &WorktreeSpec) -> (p: WorktreePlan)
    ensures
        exists|d: u128, b: u128| #[trigger] worktree_plan_of(*spec, d, b) == (p.path@, p.new_branch@, p.base@),
{
    let dir_id = new_id();
    let branch_id = new_id();
    let dir = String::from_str(".chimera/worktrees/").concat(string_of(&hex_digits_of(dir_id, 32)).as_str());
    let path = resolve_path(dir.as_str(), &Some(spec.repo_root.clone()));
    let new_branch = String::from_str("chimera-").concat(string_of(&hex_digits_of(branch_id, 32)).as_str());
    let base = match &spec.branch {
        Some(b) => b.clone(),
        None => String::from_str("HEAD"),
    };
    let p = WorktreePlan { path, new_branch, base };
    assert(worktree_plan_of(*spec, dir_id, branch_id) == (p.path@, p.new_branch@, p.base@));
    p
}


impl Default for ShellRegistry {
    /// A registry with no shells.
    fn default() -> (r: ShellRegistry)
        ensures
            r.shells() == Map::<u128, (ShellSpec, Seq<ShellEvent>)>::empty(),
    {
        ShellRegistry::new()
    }
}

} // verus!
