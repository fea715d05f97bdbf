//! Structured trace events, the in-memory mirror of the emitted events,
//! the queries over it, and where the file-backed sink keeps a session's
//! events (`<root>/.chimera/traces/<session>.jsonl`, one JSON event per
//! line).
//!
//! Writing and reading the files is the front end's; it hands the file's
//! text here to be split into event lines.

use vstd::prelude::*;

use crate::outside::{ExJsonValue, Timestamp};
use crate::input::{find_char, lemma_find_char};
use crate::stream::lemma_find_char_at;
use crate::text::{chars_of, string_of, trim, trim_chars, uuid_string, uuid_text};
use crate::tools::{resolve_path, resolved_path};

verus! {

/// The severity / category of a trace event.
#[derive(Debug, Clone, Copy, PartialEq, Eq, Structural, Hash)]
pub enum TraceLevel {
    Debug,
    Info,
    Warn,
    Error,
}

/// A structured trace event emitted by the harness or a creature.
#[derive(Debug, Clone)]
pub struct TraceEvent {
    /// When the event occurred.
    pub timestamp: Timestamp,
    /// Severity level.
    pub level: TraceLevel,
    /// Which session this event belongs to.
    pub session_id: u128,
    /// Which creature emitted the event (if any).
    pub creature_id: Option<u128>,
    /// The span or operation name.
    pub span: String,
    /// Human-readable message.
    pub message: String,
    /// Structured metadata.
    pub fields: serde_json::Value,
}

impl TraceEvent {
    /// A copy of the event.
    pub fn duplicate(&self) -> (e: TraceEvent)
        ensures
            e == *self,
    {
        TraceEvent {
            timestamp: self.timestamp,
            level: self.level,
            session_id: self.session_id,
            creature_id: self.creature_id,
            span: self.span.clone(),
            message: self.message.clone(),
            fields: self.fields.clone(),
        }
    }
}

/// The events of a session, in order of emission.
pub open spec fn of_session(events: Seq<TraceEvent>, session: u128) -> Seq<TraceEvent> {
    events.filter(|e: TraceEvent| e.session_id == session)
}

/// The events emitted by a creature, in order.
pub open spec fn of_creature(events: Seq<TraceEvent>, creature: u128) -> Seq<TraceEvent> {
    events.filter(|e: TraceEvent| e.creature_id == Some(creature))
}

/// The events emitted by a creature, in order.
pub fn events_of_creature(events: Vec<TraceEvent>, creature: u128) -> (r: Vec<TraceEvent>)
    ensures
        r@ == of_creature(events@, creature),
{
    let ghost pred = |e: TraceEvent| e.creature_id == Some(creature);
    let mut r: Vec<TraceEvent> = Vec::new();
    let mut i: usize = 0;
    while i < events.len()
        invariant
            i <= events@.len(),
            pred == (|e: TraceEvent| e.creature_id == Some(creature)),
            r@ == events@.take(i as int).filter(pred),
        decreases events.len() - i,
    {
        if events[i].creature_id == Some(creature) {
            r.push(events[i].duplicate());
        }
        proof {
            reveal(Seq::filter);
            let t1 = events@.take(i + 1);
            assert(t1.drop_last() =~= events@.take(i as int));
            assert(t1.last() == events@[i as int]);
            assert(t1.filter(pred) == (if pred(t1.last()) {
                t1.drop_last().filter(pred).push(t1.last())
            } else {
                t1.drop_last().filter(pred)
            }));
        }
        i = i + 1;
    }
    assert(events@.take(i as int) =~= events@);
    r
}

/// Where trace events go. A sink takes the events it is given, in order;
/// one that cannot take an event says why and takes nothing.
pub trait TraceSink {
    /// The events the sink has taken, in order.
    spec fn emitted(&self) -> Seq<TraceEvent>;

    /// Every event offered to the sink, in order, each with whether the
    /// sink took it.
    spec fn offered(&self) -> Seq<(TraceEvent, bool)>;

    /// Emit an event.
    fn emit(&mut self, event: TraceEvent) -> (r: Result<(), String>)
        ensures
            final(self).offered() == old(self).offered().push((event, r is Ok)),
            r is Ok ==> final(self).emitted() == old(self).emitted().push(event),
            r is Err ==> final(self).emitted() == old(self).emitted(),
    ;
}

/// The in-memory mirror of the events emitted through a sink, kept by
/// session: each session's events in order of emission.
pub struct TraceBuffer {
    by_session: std::collections::HashMap<u128, Vec<TraceEvent>>,
    all: Ghost<Seq<TraceEvent>>,
}

/// Emitting an event adds it to its own session's events and leaves every
/// other session's events as they were.
pub proof fn lemma_of_session_push(events: Seq<TraceEvent>, e: TraceEvent, session: u128)
    ensures
        of_session(events.push(e), session) == if session == e.session_id {
            of_session(events, session).push(e)
        } else {
            of_session(events, session)
        },
{
    reveal(Seq::filter);
    assert(events.push(e).drop_last() =~= events);
}

impl TraceBuffer {
    /// A session is held exactly when it has events, and what is held for
    /// it is its events in order.
    #[verifier::type_invariant]
    spec fn holds_each_session(self) -> bool {
        forall|k: u128|
            #![trigger self.by_session@.contains_key(k)]
            #![trigger of_session(self.all@, k)]
            if self.by_session@.contains_key(k) {
                self.by_session@[k]@ == of_session(self.all@, k) && of_session(self.all@, k).len() > 0
            } else {
                of_session(self.all@, k).len() == 0
            }
    }

    /// Every event emitted, in order.
    pub closed spec fn emitted(&self) -> Seq<TraceEvent> {
        self.all@
    }

    /// A mirror with nothing emitted.
    pub fn new() -> (b: TraceBuffer)
        ensures
            b.emitted() == Seq::<TraceEvent>::empty(),
    {
        broadcast use vstd::std_specs::hash::group_hash_axioms;
        let m: std::collections::HashMap<u128, Vec<TraceEvent>> = std::collections::HashMap::new();
        proof {
            assert forall|k: u128| of_session(Seq::<TraceEvent>::empty(), k).len() == 0 by {
                reveal(Seq::filter);
            }
        }
        TraceBuffer { by_session: m, all: Ghost(Seq::empty()) }
    }

    /// Mirror an emitted event.
    pub fn record(&mut self, event: TraceEvent)
        ensures
            final(self).emitted() == old(self).emitted().push(event),
    {
        broadcast use vstd::std_specs::hash::group_hash_axioms;
        let mut held = TraceBuffer::new();
        std::mem::swap(self, &mut held);
        proof {
            use_type_invariant(&held);
        }
        let TraceBuffer { by_session: mut m, all } = held;
        let ghost e = event;
        let ghost all2 = all@.push(e);
        let sid = event.session_id;
        let ghost m0 = m@;
        match m.remove(&sid) {
            Some(mut v) => {
                v.push(event);
                m.insert(sid, v);
            },
            None => {
                let mut v: Vec<TraceEvent> = Vec::new();
                v.push(event);
                m.insert(sid, v);
            },
        }
        proof {
            assert forall|k: u128|
                #![trigger m@.contains_key(k)]
                #![trigger of_session(all2, k)]
                if m@.contains_key(k) {
                    m@[k]@ == of_session(all2, k) && of_session(all2, k).len() > 0
                } else {
                    of_session(all2, k).len() == 0
                } by {
                lemma_of_session_push(all@, e, k);
                if k != sid {
                    assert(m0.contains_key(k) == m@.contains_key(k));
                    assert(of_session(all@, k) == of_session(all2, k));
                }
            }
        }
        *self = TraceBuffer { by_session: m, all: Ghost(all2) };
    }

    /// The mirrored events of a session, in order of emission; `None` when
    /// the mirror holds none, and the events are to be read from the file.
    pub fn cached(&self, session: u128) -> (r: Option<Vec<TraceEvent>>)
        ensures
            of_session(self.emitted(), session).len() == 0 ==> r is None,
            of_session(self.emitted(), session).len() > 0 ==> (r matches Some(v) && v@ == of_session(
                self.emitted(),
                session,
            )),
    {
        broadcast use vstd::std_specs::hash::group_hash_axioms;
        proof {
            use_type_invariant(self);
        }
        match self.by_session.get(&session) {
            Some(held) => {
                assert(self.by_session@.contains_key(session));
                let mut r: Vec<TraceEvent> = Vec::new();
                let mut i: usize = 0;
                while i < held.len()
                    invariant
                        i <= held@.len(),
                        r@ == held@.take(i as int),
                    decreases held.len() - i,
                {
                    r.push(held[i].duplicate());
                    i = i + 1;
                    assert(r@ =~= held@.take(i as int));
                }
                assert(held@.take(i as int) =~= held@);
                Some(r)
            },
            None => None,
        }
    }
}

/// The lines of a text (`str::lines`): split at each `\n`, without a
/// trailing `\r`, and without an empty last line after a final newline.
pub open spec fn lines_of(s: Seq<char>) -> Seq<Seq<char>>
    decreases s.len(),
{
    if s.len() == 0 {
        Seq::empty()
    } else {
        let k = crate::input::find_char(s, '\n');
        if 0 <= k < s.len() {
            seq![strip_cr(s.take(k))] + lines_of(s.skip(k + 1))
        } else {
            seq![strip_cr(s)]
        }
    }
}

/// A line without its trailing `\r`.
pub open spec fn strip_cr(line: Seq<char>) -> Seq<char> {
    if line.len() > 0 && line.last() == '\r' {
        line.drop_last()
    } else {
        line
    }
}

/// The lines of a trace file that hold an event: those that are not blank.
pub open spec fn event_lines(s: Seq<char>) -> Seq<Seq<char>> {
    lines_of(s).filter(|l: Seq<char>| trim(l).len() > 0)
}

/// Splitting a text that ends a line and what follows it splits each on
/// its own.
proof fn lemma_lines_of_concat(a: Seq<char>, b: Seq<char>)
    requires
        a.len() == 0 || a.last() == '\n',
    ensures
        lines_of(a + b) == lines_of(a) + lines_of(b),
    decreases a.len(),
{
    if a.len() == 0 {
        assert(a + b =~= b);
    } else {
        lemma_find_char(a, '\n');
        let k = find_char(a, '\n');
        let ab = a + b;
        assert forall|i: int| 0 <= i < k implies ab[i] != '\n' by {
            assert(ab[i] == a[i]);
        }
        assert(ab[k] == a[k]);
        lemma_find_char_at(ab, '\n', k);
        assert(ab.take(k) =~= a.take(k));
        let rest = a.skip(k + 1);
        assert(ab.skip(k + 1) =~= rest + b);
        if rest.len() > 0 {
            assert(rest.last() == a.last());
        }
        lemma_lines_of_concat(rest, b);
        let first = seq![strip_cr(a.take(k))];
        assert(first + lines_of(rest) + lines_of(b) =~= first + (lines_of(rest) + lines_of(b)));
    }
}

/// A line without a newline, ended by one, is read back as itself.
proof fn lemma_lines_of_line(line: Seq<char>)
    requires
        forall|i: int| 0 <= i < line.len() ==> line[i] != '\n',
        !(line.len() > 0 && line.last() == '\r'),
    ensures
        lines_of(line.push('\n')) == seq![line],
{
    let s = line.push('\n');
    assert forall|i: int| 0 <= i < line.len() implies s[i] != '\n' by {
        assert(s[i] == line[i]);
    }
    lemma_find_char_at(s, '\n', line.len() as int);
    assert(s.take(line.len() as int) =~= line);
    assert(s.skip(line.len() + 1int) =~= Seq::<char>::empty());
    assert(strip_cr(line) == line);
    assert(lines_of(Seq::<char>::empty()) == Seq::<Seq<char>>::empty());
    assert(lines_of(s) == seq![strip_cr(s.take(line.len() as int))] + lines_of(s.skip(line.len() + 1int)));
    assert(seq![line] + Seq::<Seq<char>>::empty() =~= seq![line]);
}

/// Appending an event's line, and a newline, to a trace file that is empty
/// or ends a line adds that line, and only it, after the file's event lines:
/// what a sink wrote is read back from the file by any later reader.
pub proof fn law_appended_event_line_is_read_back(text: Seq<char>, line: Seq<char>)
    requires
        text.len() == 0 || text.last() == '\n',
        forall|i: int| 0 <= i < line.len() ==> line[i] != '\n',
        !(line.len() > 0 && line.last() == '\r'),
        trim(line).len() > 0,
    ensures
        event_lines(text + line.push('\n')) == event_lines(text).push(line),
{
    lemma_lines_of_concat(text, line.push('\n'));
    lemma_lines_of_line(line);
    let pred = |l: Seq<char>| trim(l).len() > 0;
    Seq::filter_distributes_over_add(lines_of(text), seq![line], pred);
    reveal(Seq::filter);
    assert(seq![line].drop_last() =~= Seq::<Seq<char>>::empty());
    assert(seq![line].filter(pred) =~= seq![line]);
}

/// The lines of a text, in order (`str::lines`).
pub fn text_lines(text: &str) -> (lines: Vec<Vec<char>>)
    ensures
        lines@.map_values(|l: Vec<char>| l@) == lines_of(text@),
{
    let mut buf = chars_of(text);
    let ghost all = lines_of(buf@);
    let mut out: Vec<Vec<char>> = Vec::new();
    while buf.len() > 0
        invariant
            all == out@.map_values(|l: Vec<char>| l@) + lines_of(buf@),
        decreases buf@.len(),
    {
        let mut k: usize = 0;
        while k < buf.len() && buf[k] != '\n'
            invariant
                k <= buf@.len(),
                forall|m: int| 0 <= m < k ==> buf@[m] != '\n',
            decreases buf.len() - k,
        {
            k = k + 1;
        }
        proof {
            crate::input::lemma_find_char(buf@, '\n');
            assert(crate::input::find_char(buf@, '\n') == k);
        }
        let mut end = k;
        if end > 0 && buf[end - 1] == '\r' {
            end = end - 1;
        }
        let mut line: Vec<char> = Vec::new();
        let mut m: usize = 0;
        while m < end
            invariant
                end <= k <= buf@.len(),
                m <= end,
                line@ == buf@.take(m as int),
            decreases end - m,
        {
            line.push(buf[m]);
            m = m + 1;
            proof {
                assert(buf@.take(m as int) =~= buf@.take(m - 1).push(buf@[m - 1]));
            }
        }
        proof {
            if k < buf@.len() {
                assert(strip_cr(buf@.take(k as int)) =~= line@);
            } else {
                assert(buf@.take(k as int) =~= buf@);
                assert(strip_cr(buf@) =~= line@);
            }
        }
        let mut rest: Vec<char> = Vec::new();
        if k < buf.len() {
            let mut n: usize = k + 1;
            while n < buf.len()
                invariant
                    k < buf@.len(),
                    k + 1 <= n <= buf@.len(),
                    rest@ == buf@.subrange(k + 1, n as int),
                decreases buf.len() - n,
            {
                rest.push(buf[n]);
                n = n + 1;
            }
            proof {
                assert(rest@ =~= buf@.skip(k + 1));
            }
        }
        let ghost before = out@.map_values(|l: Vec<char>| l@);
        proof {
            if k < buf@.len() {
                assert(lines_of(buf@) == seq![line@] + lines_of(rest@));
            } else {
                assert(rest@ =~= Seq::<char>::empty());
                assert(lines_of(buf@) == seq![line@]);
            }
        }
        out.push(line);
        proof {
            assert(out@.map_values(|l: Vec<char>| l@) =~= before.push(out@.last()@));
            assert(before + lines_of(buf@) =~= before.push(out@.last()@) + lines_of(rest@));
        }
        buf = rest;
    }
    proof {
        assert(lines_of(buf@) =~= Seq::<Seq<char>>::empty());
        assert(out@.map_values(|l: Vec<char>| l@) + lines_of(buf@) =~= out@.map_values(
            |l: Vec<char>| l@,
        ));
    }
    out
}

/// The lines of a trace file that hold an event, in order.
pub fn event_lines_of(text: &str) -> (lines: Vec<String>)
    ensures
        lines@.map_values(|l: String| l@) == event_lines(text@),
{
    let all = text_lines(text);
    let ghost av = all@.map_values(|l: Vec<char>| l@);
    let ghost pred = |l: Seq<char>| trim(l).len() > 0;
    let mut out: Vec<String> = Vec::new();
    let mut i: usize = 0;
    while i < all.len()
        invariant
            i <= all@.len(),
            av == all@.map_values(|l: Vec<char>| l@),
            pred == (|l: Seq<char>| trim(l).len() > 0),
            out@.map_values(|l: String| l@) == av.take(i as int).filter(pred),
        decreases all.len() - i,
    {
        let ghost before = out@.map_values(|l: String| l@);
        proof {
            reveal(Seq::filter);
            let t1 = av.take(i + 1);
            assert(t1.drop_last() =~= av.take(i as int));
            assert(t1.last() == all@[i as int]@);
        }
        if trim_chars(&all[i]).len() > 0 {
            out.push(string_of(&all[i]));
            proof {
                assert(out@.map_values(|l: String| l@) =~= before.push(all@[i as int]@));
            }
        }
        i = i + 1;
    }
    proof {
        assert(av.take(i as int) =~= av);
    }
    out
}

/// The directory holding the traces of a workspace root.
pub open spec fn traces_dir_of(root: Seq<char>) -> Seq<char> {
    resolved_path("traces"@, Some(resolved_path(".chimera"@, Some(root))))
}

/// Where a file-backed sink keeps its traces.
pub struct TraceFiles {
    root: String,
}

/// An event recorded is the last of its session's events, after those
/// recorded before it.
pub proof fn law_recorded_event_is_queried(events: Seq<TraceEvent>, e: TraceEvent)
    ensures
        of_session(events.push(e), e.session_id) == of_session(events, e.session_id).push(e),
{
    reveal(Seq::filter);
    assert(events.push(e).drop_last() =~= events);
}

impl TraceFiles {
    pub closed spec fn root_view(&self) -> Seq<char> {
        self.root@
    }

    /// Trace files under the given workspace root.
    pub fn new(root: &str) -> (t: TraceFiles)
        ensures
            t.root_view() == root@,
    {
        TraceFiles { root: String::from_str(root) }
    }

    /// The directory the trace files live in.
    pub fn traces_dir(&self) -> (d: String)
        ensures
            d@ == traces_dir_of(self.root_view()),
    {
        let chimera_dir = resolve_path(".chimera", &Some(self.root.clone()));
        resolve_path("traces", &Some(chimera_dir))
    }

    /// The file holding a session's trace.
    pub fn trace_path(&self, session: u128) -> (p: String)
        ensures
            p@ == resolved_path(uuid_text(session) + ".jsonl"@, Some(traces_dir_of(self.root_view()))),
    {
        let name = uuid_string(session).concat(".jsonl");
        proof {
            crate::text::lemma_uuid_text_len(session);
            assert(name@[0] == uuid_text(session)[0]);
            crate::text::lemma_hex_digit_not_slash(session);
        }
        resolve_path(name.as_str(), &Some(self.traces_dir()))
    }
}

impl TraceSink for TraceBuffer {
    open spec fn emitted(&self) -> Seq<TraceEvent> {
        self.emitted()
    }

    /// The mirror takes every event offered to it.
    open spec fn offered(&self) -> Seq<(TraceEvent, bool)> {
        self.emitted().map_values(|e: TraceEvent| (e, true))
    }

    /// Mirror the event; the mirror always takes it.
    fn emit(&mut self, event: TraceEvent) -> (r: Result<(), String>)
        ensures
            r is Ok,
    {
        let ghost e = event;
        self.record(event);
        assert(self.emitted().map_values(|x: TraceEvent| (x, true)) =~= old(self).emitted().map_values(
            |x: TraceEvent| (x, true),
        ).push((e, true)));
        Ok(())
    }
}

} // verus!
