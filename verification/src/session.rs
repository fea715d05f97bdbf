//! Sessions: their metadata, event log and checkpoints, how each lifecycle
//! operation changes a session's state, and where the file-backed store
//! keeps them (`<root>/.chimera/sessions/<id>.json`).
//!
//! Reading and writing the files is the front end's; it hands the states
//! and the directory's file names here.

use vstd::prelude::*;

use crate::outside::{new_id, ExJsonValue, Timestamp};
use crate::text::{chars_of, string_of, uuid_string, uuid_text};
use crate::tools::{resolve_path, resolved_path};

verus! {

/// Metadata for creating a new session.
#[derive(Debug, Clone)]
pub struct SessionMeta {
    /// Human-readable label for the session.
    pub label: String,
    /// The objective that started this session.
    pub objective: String,
    /// When the session was created.
    pub created_at: Timestamp,
}

impl SessionMeta {
    /// A copy of the metadata.
    pub fn duplicate(&self) -> (m: SessionMeta)
        ensures
            m == *self,
    {
        SessionMeta {
            label: self.label.clone(),
            objective: self.objective.clone(),
            created_at: self.created_at,
        }
    }
}

/// An event in the session event log.
#[derive(Debug, Clone)]
pub enum SessionEvent {
    /// Session was created.
    Created { meta: SessionMeta },
    /// A task was added to the session.
    TaskAdded { description: String },
    /// A creature was spawned.
    CreatureSpawned { creature_name: String, instance_id: String },
    /// A tool was called.
    ToolCalled { tool: String, args: serde_json::Value },
    /// An approval was requested.
    ApprovalRequested { action: String, class: String },
    /// An approval decision was made.
    ApprovalDecided { action: String, approved: bool },
    /// A checkpoint was created.
    Checkpointed { checkpoint_id: u128 },
    /// The session was forked.
    Forked { parent_id: u128, child_id: u128 },
    /// A custom event for extensibility.
    Custom { key: String, payload: serde_json::Value },
}

impl SessionEvent {
    /// A copy of the event.
    pub fn duplicate(&self) -> (e: SessionEvent)
        ensures
            e == *self,
    {
        match self {
            SessionEvent::Created { meta } => SessionEvent::Created { meta: meta.duplicate() },
            SessionEvent::TaskAdded { description } => SessionEvent::TaskAdded {
                description: description.clone(),
            },
            SessionEvent::CreatureSpawned { creature_name, instance_id } => {
                SessionEvent::CreatureSpawned {
                    creature_name: creature_name.clone(),
                    instance_id: instance_id.clone(),
                }
            },
            SessionEvent::ToolCalled { tool, args } => SessionEvent::ToolCalled {
                tool: tool.clone(),
                args: args.clone(),
            },
            SessionEvent::ApprovalRequested { action, class } => SessionEvent::ApprovalRequested {
                action: action.clone(),
                class: class.clone(),
            },
            SessionEvent::ApprovalDecided { action, approved } => SessionEvent::ApprovalDecided {
                action: action.clone(),
                approved: *approved,
            },
            SessionEvent::Checkpointed { checkpoint_id } => SessionEvent::Checkpointed {
                checkpoint_id: *checkpoint_id,
            },
            SessionEvent::Forked { parent_id, child_id } => SessionEvent::Forked {
                parent_id: *parent_id,
                child_id: *child_id,
            },
            SessionEvent::Custom { key, payload } => SessionEvent::Custom {
                key: key.clone(),
                payload: payload.clone(),
            },
        }
    }
}

/// Reconstructed state of a session from the event log.
#[derive(Debug, Clone)]
pub struct SessionState {
    /// Session identifier.
    pub id: u128,
    /// Session metadata.
    pub meta: SessionMeta,
    /// All events in order.
    pub events: Vec<SessionEvent>,
    /// Checkpoint IDs created so far.
    pub checkpoints: Vec<u128>,
    /// Whether the session is still active.
    pub active: bool,
}

fn copy_events(v: &Vec<SessionEvent>) -> (r: Vec<SessionEvent>)
    ensures
        r@ == v@,
{
    let mut r: Vec<SessionEvent> = Vec::new();
    let mut i: usize = 0;
    while i < v.len()
        invariant
            i <= v@.len(),
            r@ == v@.take(i as int),
        decreases v.len() - i,
    {
        r.push(v[i].duplicate());
        i = i + 1;
        proof {
            assert(v@.take(i as int) =~= v@.take(i - 1).push(v@[i - 1]));
        }
    }
    assert(v@.take(i as int) =~= v@);
    r
}

fn copy_ids(v: &Vec<u128>) -> (r: Vec<u128>)
    ensures
        r@ == v@,
{
    let mut r: Vec<u128> = Vec::new();
    let mut i: usize = 0;
    while i < v.len()
        invariant
            i <= v@.len(),
            r@ == v@.take(i as int),
        decreases v.len() - i,
    {
        r.push(v[i]);
        i = i + 1;
        proof {
            assert(v@.take(i as int) =~= v@.take(i - 1).push(v@[i - 1]));
        }
    }
    assert(v@.take(i as int) =~= v@);
    r
}

/// Start a session: a fresh ID, the creation as its first event, no
/// checkpoints, active.
pub fn new_session(meta: SessionMeta) -> (s: SessionState)
    ensures
        s.meta == meta,
        s.events@ == seq![SessionEvent::Created { meta }],
        s.checkpoints@.len() == 0,
        s.active,
{
    let id = new_id();
    let mut events: Vec<SessionEvent> = Vec::new();
    events.push(SessionEvent::Created { meta: meta.duplicate() });
    let s = SessionState { id, meta, events, checkpoints: Vec::new(), active: true };
    assert(s.events@ =~= seq![SessionEvent::Created { meta }]);
    s
}

impl SessionState {
    /// Append an event to the log.
    pub fn append_event(&mut self, event: SessionEvent)
        ensures
            final(self).events@ == old(self).events@.push(event),
            final(self).id == old(self).id,
            final(self).meta == old(self).meta,
            final(self).checkpoints@ == old(self).checkpoints@,
            final(self).active == old(self).active,
    {
        self.events.push(event);
    }

    /// Take a checkpoint: a fresh ID, recorded among the checkpoints and in
    /// the log. Gives the checkpoint's ID.
    pub fn snapshot(&mut self) -> (cp: u128)
        ensures
            final(self).checkpoints@ == old(self).checkpoints@.push(cp),
            final(self).events@ == old(self).events@.push(
                SessionEvent::Checkpointed { checkpoint_id: cp },
            ),
            final(self).id == old(self).id,
            final(self).meta == old(self).meta,
            final(self).active == old(self).active,
    {
        let cp = new_id();
        self.checkpoints.push(cp);
        self.events.push(SessionEvent::Checkpointed { checkpoint_id: cp });
        cp
    }

    /// Fork the session: a new lineage with a fresh ID that inherits the
    /// metadata, the log and the checkpoints, records the fork in its log,
    /// and is active.
    pub fn fork(&self) -> (child: SessionState)
        ensures
            child.meta == self.meta,
            child.events@ == self.events@.push(
                SessionEvent::Forked { parent_id: self.id, child_id: child.id },
            ),
            child.checkpoints@ == self.checkpoints@,
            child.active,
    {
        let child_id = new_id();
        let mut events = copy_events(&self.events);
        events.push(SessionEvent::Forked { parent_id: self.id, child_id });
        SessionState {
            id: child_id,
            meta: self.meta.duplicate(),
            events,
            checkpoints: copy_ids(&self.checkpoints),
            active: true,
        }
    }
}

/// The position of the last `.` in a text, if any.
pub open spec fn last_dot(s: Seq<char>) -> Option<int>
    decreases s.len(),
{
    if s.len() == 0 {
        None
    } else if s.last() == '.' {
        Some(s.len() - 1)
    } else {
        last_dot(s.drop_last())
    }
}

/// The extension of a file name (`Path::extension`): what follows its last
/// `.`, unless the name has none, the dot is its first character, or the
/// name is `..`.
pub open spec fn extension_of(name: Seq<char>) -> Option<Seq<char>> {
    if name == ".."@ {
        None
    } else {
        match last_dot(name) {
            Some(k) => if k > 0 {
                Some(name.skip(k + 1))
            } else {
                None
            },
            None => None,
        }
    }
}

/// The stem of a file name (`Path::file_stem`): what precedes its last `.`,
/// or the whole name when it has no extension.
pub open spec fn stem_of(name: Seq<char>) -> Seq<char> {
    match last_dot(name) {
        Some(k) => if k > 0 {
            name.take(k)
        } else {
            name
        },
        None => name,
    }
}

/// What `uuid::Uuid::parse_str` reads from a text, as the UUID's 128 bits.
pub uninterp spec fn uuid_parsed(text: Seq<char>) -> Option<u128>;

/// `uuid::Uuid::parse_str`: the UUID a text holds (hyphenated, simple,
/// braced or URN form), as its 128 bits.
#[verifier::external_body]
fn parse_uuid(text: &str) -> (r: Option<u128>)
    ensures
        r == uuid_parsed(text@),
{
    uuid::Uuid::parse_str(text).ok().map(|u| u.as_u128())
}

/// A session ID given on the command line, or the error naming it.
pub fn session_id_arg(text: &str) -> (r: Result<u128, String>)
    ensures
        match uuid_parsed(text@) {
            Some(id) => r == Ok::<u128, String>(id),
            None => r matches Err(m) && m@ == "invalid session id: "@ + text@,
        },
{
    match parse_uuid(text) {
        Some(id) => Ok(id),
        None => Err(String::from_str("invalid session id: ").concat(text)),
    }
}

/// The session a file of the sessions directory holds: a `.json` file named
/// by its session's UUID.
pub open spec fn session_of_file(name: Seq<char>) -> Option<u128> {
    if name != ".."@ && name != "."@ && extension_of(name) == Some("json"@) {
        uuid_parsed(stem_of(name))
    } else {
        None
    }
}

/// The sessions a list of file names holds, in order.
pub open spec fn sessions_of_files(names: Seq<Seq<char>>) -> Seq<u128>
    decreases names.len(),
{
    if names.len() == 0 {
        Seq::empty()
    } else {
        let rest = sessions_of_files(names.drop_last());
        match session_of_file(names.last()) {
            Some(id) => rest.push(id),
            None => rest,
        }
    }
}

/// A session store that keeps each session as a JSON file under
/// `<root>/.chimera/sessions/<id>.json`.
pub struct FileSessionStore {
    root: String,
}

/// The directory holding the sessions of a workspace root.
pub open spec fn sessions_dir_of(root: Seq<char>) -> Seq<char> {
    resolved_path("sessions"@, Some(resolved_path(".chimera"@, Some(root))))
}

impl FileSessionStore {
    pub closed spec fn root_view(&self) -> Seq<char> {
        self.root@
    }

    /// A store rooted at the given workspace directory.
    pub fn new(root: &str) -> (s: FileSessionStore)
        ensures
            s.root_view() == root@,
    {
        FileSessionStore { root: String::from_str(root) }
    }

    /// The directory the session files live in.
    pub fn sessions_dir(&self) -> (d: String)
        ensures
            d@ == sessions_dir_of(self.root_view()),
    {
        proof {
            reveal_strlit(".chimera");
            reveal_strlit("sessions");
        }
        let chimera_dir = resolve_path(".chimera", &Some(self.root.clone()));
        resolve_path("sessions", &Some(chimera_dir))
    }

    /// The file holding a session.
    pub fn session_path(&self, id: u128) -> (p: String)
        ensures
            p@ == resolved_path(uuid_text(id) + ".json"@, Some(sessions_dir_of(self.root_view()))),
    {
        let name = uuid_string(id).concat(".json");
        proof {
            crate::text::lemma_uuid_text_len(id);
            assert(name@[0] == uuid_text(id)[0]);
            assert(uuid_text(id)[0] != '/') by {
                crate::text::lemma_hex_digit_not_slash(id);
            }
        }
        resolve_path(name.as_str(), &Some(self.sessions_dir()))
    }

    /// The sessions the directory's files hold, in the order of the names.
    pub fn sessions_in(names: &Vec<String>) -> (ids: Vec<u128>)
        ensures
            ids@ == sessions_of_files(names@.map_values(|n: String| n@)),
    {
        let ghost nv = names@.map_values(|n: String| n@);
        let mut ids: Vec<u128> = Vec::new();
        let mut i: usize = 0;
        while i < names.len()
            invariant
                i <= names@.len(),
                nv == names@.map_values(|n: String| n@),
                ids@ == sessions_of_files(nv.take(i as int)),
            decreases names.len() - i,
        {
            proof {
                assert(nv.take(i + 1).drop_last() =~= nv.take(i as int));
                assert(nv.take(i + 1).last() == names@[i as int]@);
            }
            match session_file(names[i].as_str()) {
                Some(id) => {
                    ids.push(id);
                },
                None => {},
            }
            i = i + 1;
        }
        assert(nv.take(i as int) =~= nv);
        ids
    }
}

/// The session a file holds, if any.
pub fn session_file(name: &str) -> (r: Option<u128>)
    ensures
        r == session_of_file(name@),
{
    let cs = chars_of(name);
    if crate::text::str_eq(name, "..") || crate::text::str_eq(name, ".") {
        return None;
    }
    let mut k: usize = cs.len();
    assert(cs@.take(k as int) =~= cs@);
    while k > 0 && cs[k - 1] != '.'
        invariant
            k <= cs@.len(),
            cs@ == name@,
            last_dot(cs@.take(k as int)) == last_dot(cs@),
        decreases k,
    {
        proof {
            assert(cs@.take(k as int).drop_last() =~= cs@.take(k - 1));
        }
        k = k - 1;
    }
    proof {
        if k == cs@.len() {
            assert(cs@.take(k as int) =~= cs@);
        }
    }
    if k <= 1 {
        // No dot, or only a leading one: no extension.
        proof {
            if k == 1 {
                assert(cs@.take(1).last() == '.');
                assert(last_dot(cs@.take(1)) == Some(0int));
            } else {
                assert(last_dot(cs@.take(0)) is None);
            }
        }
        return None;
    }
    proof {
        assert(cs@.take(k as int).last() == '.');
        assert(last_dot(cs@) == Some(k - 1));
        reveal_strlit("json");
    }
    let mut ext: Vec<char> = Vec::new();
    let mut j: usize = k;
    while j < cs.len()
        invariant
            k <= j <= cs@.len(),
            ext@ == cs@.subrange(k as int, j as int),
        decreases cs.len() - j,
    {
        ext.push(cs[j]);
        j = j + 1;
        proof {
            assert(cs@.subrange(k as int, j as int) =~= cs@.subrange(k as int, j - 1).push(cs@[j - 1]));
        }
    }
    proof {
        assert(ext@ =~= cs@.skip(k as int));
    }
    if !crate::text::same_chars(&ext, &chars_of("json")) {
        return None;
    }
    let mut stem: Vec<char> = Vec::new();
    let mut m: usize = 0;
    while m < k - 1
        invariant
            k >= 2,
            m <= k - 1,
            k <= cs@.len(),
            stem@ == cs@.take(m as int),
        decreases k - 1 - m,
    {
        stem.push(cs[m]);
        m = m + 1;
        proof {
            assert(cs@.take(m as int) =~= cs@.take(m - 1).push(cs@[m - 1]));
        }
    }
    parse_uuid(string_of(&stem).as_str())
}

} // verus!
