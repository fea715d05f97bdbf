//! Reading an OpenAI-compatible provider's streamed answer: the
//! server-sent-event framing of the bytes into `data:` payloads, and the
//! accumulation of the decoded chunks into streaming deltas.
//!
//! The front end decodes each payload's JSON into a `StreamChunk` and hands
//! it to `StreamAccumulator::apply`.

use std::sync::Arc;

use vstd::prelude::*;

use crate::input::{find_char, lemma_find_char};
use crate::llm::{
    calls_view, deltas_view, opt_view, DeltaView, FunctionCall, StreamDelta, ToolCall,
    ToolCallView, Usage,
};
use crate::text::{chars_of, same_chars, starts_with_chars, string_of, trim, trim_chars};

verus! {

/// The payload of one (already trimmed) line of an event stream: what
/// follows `data:`, trimmed, unless it is the `[DONE]` marker.
pub open spec fn payload_of(line: Seq<char>) -> Option<Seq<char>> {
    if "data:"@.is_prefix_of(line) {
        let d = trim(line.skip(5));
        if d == "[DONE]"@ {
            None
        } else {
            Some(d)
        }
    } else {
        None
    }
}

/// Split the complete lines off a buffer: the payloads of the complete
/// lines, in order, and what is left after the last newline.
pub open spec fn drain_lines(buf: Seq<char>) -> (Seq<Seq<char>>, Seq<char>)
    decreases buf.len(),
{
    let k = find_char(buf, '\n');
    if 0 <= k < buf.len() {
        let rest = drain_lines(buf.skip(k + 1));
        match payload_of(trim(buf.take(k))) {
            Some(p) => (seq![p] + rest.0, rest.1),
            None => rest,
        }
    } else {
        (Seq::empty(), buf)
    }
}

/// What `String::from_utf8_lossy` makes of bytes.
pub uninterp spec fn lossy_text(bytes: Seq<u8>) -> Seq<char>;

/// `String::from_utf8_lossy`: the bytes as text, with U+FFFD in place of
/// what is not UTF-8.
#[verifier::external_body]
fn utf8_lossy(bytes: &[u8]) -> (s: String)
    ensures
        s@ == lossy_text(bytes@),
{
    String::from_utf8_lossy(bytes).into_owned()
}

pub(crate) proof fn lemma_find_char_at(s: Seq<char>, c: char, k: int)
    requires
        0 <= k <= s.len(),
        forall|i: int| 0 <= i < k ==> s[i] != c,
        k == s.len() || s[k] == c,
    ensures
        find_char(s, c) == k,
    decreases s.len(),
{
    if s.len() > 0 && s[0] != c {
        assert forall|i: int| 0 <= i < k - 1 implies s.drop_first()[i] != c by {
            assert(s.drop_first()[i] == s[i + 1]);
        }
        lemma_find_char_at(s.drop_first(), c, k - 1);
    }
}

/// Text received in two pieces gives the payloads it gives when received
/// at once, and holds back the same rest: how a stream is cut into network
/// reads does not change what is decoded.
pub proof fn law_pieces_decode_as_whole(a: Seq<char>, b: Seq<char>)
    ensures
        ({
            let (p1, r1) = drain_lines(a);
            let (p2, r2) = drain_lines(r1 + b);
            &&& p1 + p2 == drain_lines(a + b).0
            &&& r2 == drain_lines(a + b).1
        }),
    decreases a.len(),
{
    lemma_find_char(a, '\n');
    let k = find_char(a, '\n');
    if 0 <= k < a.len() {
        let ab = a + b;
        assert forall|i: int| 0 <= i < k implies ab[i] != '\n' by {
            assert(ab[i] == a[i]);
        }
        assert(ab[k] == a[k]);
        lemma_find_char_at(ab, '\n', k);
        assert(ab.take(k) =~= a.take(k));
        assert(ab.skip(k + 1) =~= a.skip(k + 1) + b);
        law_pieces_decode_as_whole(a.skip(k + 1), b);
        let rest = drain_lines(a.skip(k + 1));
        let p2 = drain_lines(rest.1 + b).0;
        match payload_of(trim(a.take(k))) {
            Some(p) => {
                assert(seq![p] + rest.0 + p2 =~= seq![p] + (rest.0 + p2));
            },
            None => {},
        }
    } else {
        assert(drain_lines(a).1 == a);
        assert(drain_lines(a).0 =~= Seq::<Seq<char>>::empty());
        assert(Seq::<Seq<char>>::empty() + drain_lines(a + b).0 =~= drain_lines(a + b).0);
    }
}

/// The framing of an event stream: the text received after the last
/// complete line.
pub struct SseDecoder {
    buf: Vec<char>,
}

impl SseDecoder {
    /// The text held back, waiting for its newline.
    pub closed spec fn pending(&self) -> Seq<char> {
        self.buf@
    }

    /// A decoder that has received nothing.
    pub fn new() -> (d: SseDecoder)
        ensures
            d.pending() == Seq::<char>::empty(),
    {
        SseDecoder { buf: Vec::new() }
    }

    /// Receive text: gives the payloads of the lines it completes.
    pub fn push_text(&mut self, text: &str) -> (payloads: Vec<String>)
        ensures
            ({
                let (ps, rest) = drain_lines(old(self).pending() + text@);
                &&& payloads@.map_values(|p: String| p@) == ps
                &&& final(self).pending() == rest
            }),
    {
        let t = chars_of(text);
        let mut buf: Vec<char> = Vec::new();
        let mut i: usize = 0;
        while i < self.buf.len()
            invariant
                i <= self.buf@.len(),
                buf@ == self.buf@.take(i as int),
            decreases self.buf.len() - i,
        {
            buf.push(self.buf[i]);
            i = i + 1;
        }
        let mut j: usize = 0;
        while j < t.len()
            invariant
                i == self.buf@.len(),
                j <= t@.len(),
                buf@ == self.buf@ + t@.take(j as int),
            decreases t.len() - j,
        {
            buf.push(t[j]);
            j = j + 1;
            proof {
                assert(self.buf@ + t@.take(j as int) =~= (self.buf@ + t@.take(j - 1)).push(t@[j - 1]));
            }
        }
        proof {
            assert(self.buf@.take(i as int) =~= self.buf@);
            assert(t@.take(j as int) =~= t@);
        }
        let ghost goal = drain_lines(buf@);
        let mut out: Vec<String> = Vec::new();
        let data = chars_of("data:");
        let done = chars_of("[DONE]");
        loop
            invariant
                goal.0 == out@.map_values(|p: String| p@) + drain_lines(buf@).0,
                goal.1 == drain_lines(buf@).1,
                data@ == "data:"@,
                done@ == "[DONE]"@,
            ensures
                goal.0 == out@.map_values(|p: String| p@),
                goal.1 == buf@,
            decreases buf@.len(),
        {
            let mut k: usize = 0;
            while k < buf.len() && buf[k] != '\n'
                invariant
                    k <= buf@.len(),
                    forall|m: int| 0 <= m < k ==> buf@[m] != '\n',
                decreases buf.len() - k,
            {
                k = k + 1;
            }
            proof {
                lemma_find_char(buf@, '\n');
                assert(find_char(buf@, '\n') == k);
            }
            if k == buf.len() {
                proof {
                    assert(drain_lines(buf@).0 =~= Seq::<Seq<char>>::empty());
                    assert(out@.map_values(|p: String| p@) + drain_lines(buf@).0 =~= out@.map_values(
                        |p: String| p@,
                    ));
                }
                break;
            }
            let mut head: Vec<char> = Vec::new();
            let mut m: usize = 0;
            while m < k
                invariant
                    m <= k < buf@.len(),
                    head@ == buf@.take(m as int),
                decreases k - m,
            {
                head.push(buf[m]);
                m = m + 1;
            }
            let line = trim_chars(&head);
            let mut rest: Vec<char> = Vec::new();
            let mut n: usize = k + 1;
            while n < buf.len()
                invariant
                    k < buf@.len(),
                    k + 1 <= n <= buf@.len(),
                    rest@ == buf@.subrange(k + 1, n as int),
                decreases buf.len() - n,
            {
                rest.push(buf[n]);
                n = n + 1;
            }
            proof {
                assert(rest@ =~= buf@.skip(k + 1));
            }
            let ghost before = out@.map_values(|p: String| p@);
            if starts_with_chars(&line, &data) {
                proof {
                    reveal_strlit("data:");
                }
                let mut body: Vec<char> = Vec::new();
                let mut q: usize = 5;
                while q < line.len()
                    invariant
                        5 <= line@.len(),
                        5 <= q <= line@.len(),
                        body@ == line@.subrange(5, q as int),
                    decreases line.len() - q,
                {
                    body.push(line[q]);
                    q = q + 1;
                }
                proof {
                    assert(body@ =~= line@.skip(5));
                }
                let payload = trim_chars(&body);
                if !same_chars(&payload, &done) {
                    out.push(string_of(&payload));
                    proof {
                        assert(out@.map_values(|p: String| p@) =~= before.push(payload@));
                        assert(seq![payload@] + drain_lines(rest@).0 =~= drain_lines(buf@).0);
                        assert(before.push(payload@) + drain_lines(rest@).0 =~= before + (seq![
                            payload@,
                        ] + drain_lines(rest@).0));
                    }
                }
            }
            buf = rest;
        }
        self.buf = buf;
        out
    }

    /// Receive bytes, read as UTF-8 with replacement of what is not.
    pub fn push_bytes(&mut self, bytes: &[u8]) -> (payloads: Vec<String>)
        ensures
            ({
                let (ps, rest) = drain_lines(old(self).pending() + lossy_text(bytes@));
                &&& payloads@.map_values(|p: String| p@) == ps
                &&& final(self).pending() == rest
            }),
    {
        let text = utf8_lossy(bytes);
        self.push_text(text.as_str())
    }
}


/// One tool-call fragment of a streamed chunk: the call's position among
/// the response's calls, and what the fragment sets (`id`, `name`) or
/// appends (`arguments`).
#[derive(Debug, Clone)]
pub struct ToolCallChunk {
    pub index: u32,
    pub id: Option<String>,
    pub name: Option<String>,
    pub arguments: Option<String>,
}

/// A decoded `data:` payload, as far as the accumulator reads it.
#[derive(Debug, Clone)]
pub struct StreamChunk {
    /// The first choice's `finish_reason`, when it is a string.
    pub finish_reason: Option<String>,
    /// The first choice's `delta.content`, when it is a string.
    pub content: Option<String>,
    /// The first choice's `delta.tool_calls`, in order.
    pub tool_calls: Vec<ToolCallChunk>,
    /// The chunk's `usage`, when present.
    pub usage: Option<Usage>,
}

/// A tool-call fragment as plain values.
pub struct FragmentView {
    pub index: u32,
    pub id: Option<Seq<char>>,
    pub name: Option<Seq<char>>,
    pub arguments: Option<Seq<char>>,
}

impl ToolCallChunk {
    pub open spec fn view(&self) -> FragmentView {
        FragmentView {
            index: self.index,
            id: opt_view(self.id),
            name: opt_view(self.name),
            arguments: opt_view(self.arguments),
        }
    }
}

/// The fragments of a list, as plain values.
pub open spec fn fragments_view(v: Seq<ToolCallChunk>) -> Seq<FragmentView> {
    v.map_values(|f: ToolCallChunk| f.view())
}

/// A chunk as plain values.
pub struct ChunkView {
    pub finish_reason: Option<Seq<char>>,
    pub content: Option<Seq<char>>,
    pub tool_calls: Seq<FragmentView>,
    pub usage: Option<Usage>,
}

impl StreamChunk {
    pub open spec fn view(&self) -> ChunkView {
        ChunkView {
            finish_reason: opt_view(self.finish_reason),
            content: opt_view(self.content),
            tool_calls: fragments_view(self.tool_calls@),
            usage: self.usage,
        }
    }
}

/// A tool call being assembled from fragments.
pub struct EntryView {
    pub index: u32,
    pub id: Seq<char>,
    pub name: Seq<char>,
    pub arguments: Seq<char>,
}

/// A call with nothing assembled yet.
pub open spec fn empty_entry(index: u32) -> EntryView {
    EntryView { index, id: Seq::empty(), name: Seq::empty(), arguments: Seq::empty() }
}

/// A fragment applied to its call.
pub open spec fn apply_fragment(e: EntryView, f: FragmentView) -> EntryView {
    EntryView {
        index: e.index,
        id: match f.id {
            Some(i) => i,
            None => e.id,
        },
        name: match f.name {
            Some(n) => n,
            None => e.name,
        },
        arguments: match f.arguments {
            Some(a) => e.arguments + a,
            None => e.arguments,
        },
    }
}

/// Whether the calls are held in increasing order of position.
pub open spec fn sorted_entries(es: Seq<EntryView>) -> bool {
    forall|i: int, j: int| 0 <= i < j < es.len() ==> #[trigger] es[i].index < #[trigger] es[j].index
}

/// The first call at or after position `index`, or the number of calls.
pub open spec fn first_at_least(es: Seq<EntryView>, index: u32) -> int
    decreases es.len(),
{
    if es.len() == 0 {
        0
    } else if es[0].index >= index {
        0
    } else {
        1 + first_at_least(es.drop_first(), index)
    }
}

proof fn lemma_first_at_least(es: Seq<EntryView>, index: u32)
    ensures
        0 <= first_at_least(es, index) <= es.len(),
        forall|i: int| 0 <= i < first_at_least(es, index) ==> es[i].index < index,
        first_at_least(es, index) < es.len() ==> es[first_at_least(es, index)].index >= index,
    decreases es.len(),
{
    if es.len() > 0 && es[0].index < index {
        lemma_first_at_least(es.drop_first(), index);
        assert forall|i: int| 0 <= i < first_at_least(es, index) implies es[i].index < index by {
            if i > 0 {
                assert(es[i] == es.drop_first()[i - 1]);
            }
        }
    }
}

/// A fragment applied to the calls: to its call, or to a new call put in
/// its place.
pub open spec fn upsert(es: Seq<EntryView>, f: FragmentView) -> Seq<EntryView> {
    let p = first_at_least(es, f.index);
    if p < es.len() && es[p].index == f.index {
        es.update(p, apply_fragment(es[p], f))
    } else {
        es.insert(p, apply_fragment(empty_entry(f.index), f))
    }
}

/// Fragments applied in order.
pub open spec fn upsert_all(es: Seq<EntryView>, fs: Seq<FragmentView>) -> Seq<EntryView>
    decreases fs.len(),
{
    if fs.len() == 0 {
        es
    } else {
        upsert_all(upsert(es, fs[0]), fs.drop_first())
    }
}

/// The deltas of the assembled calls, in order: those that got a name.
pub open spec fn flush(es: Seq<EntryView>) -> Seq<DeltaView>
    decreases es.len(),
{
    if es.len() == 0 {
        Seq::empty()
    } else {
        let e = es[0];
        let head = if e.name.len() > 0 {
            seq![
                DeltaView::ToolCall(
                    ToolCallView { id: e.id, kind: "function"@, name: e.name, arguments: e.arguments },
                ),
            ]
        } else {
            Seq::empty()
        };
        head + flush(es.drop_first())
    }
}

/// The accumulated state of a stream as plain values.
pub struct AccView {
    pub deltas: Seq<DeltaView>,
    pub entries: Seq<EntryView>,
    pub finish_reason: Option<Seq<char>>,
    pub usage: Option<Usage>,
}

/// A chunk applied to the state: its text becomes a delta, its fragments go
/// to their calls, a finish reason other than `null` is kept, a usage
/// replaces the last.
pub open spec fn apply_chunk(st: AccView, c: ChunkView) -> AccView {
    AccView {
        deltas: match c.content {
            Some(t) => st.deltas.push(DeltaView::Text(t)),
            None => st.deltas,
        },
        entries: upsert_all(st.entries, c.tool_calls),
        finish_reason: match c.finish_reason {
            Some(fr) => if fr == "null"@ {
                st.finish_reason
            } else {
                Some(fr)
            },
            None => st.finish_reason,
        },
        usage: match c.usage {
            Some(u) => Some(u),
            None => st.usage,
        },
    }
}

/// The deltas a stream ends with: its text deltas, its calls in order of
/// position, and the end with the finish reason and usage.
pub open spec fn final_deltas(st: AccView) -> Seq<DeltaView> {
    st.deltas + flush(st.entries) + seq![
        DeltaView::Done { finish_reason: st.finish_reason, usage: st.usage },
    ]
}

struct AccEntry {
    index: u32,
    id: String,
    name: String,
    arguments: String,
}

impl AccEntry {
    spec fn view(&self) -> EntryView {
        EntryView { index: self.index, id: self.id@, name: self.name@, arguments: self.arguments@ }
    }
}

/// Whether a sequence of positions is strictly increasing.
spec fn increasing(ks: Seq<u32>) -> bool {
    forall|i: int, j: int| 0 <= i < j < ks.len() ==> ks[i] < ks[j]
}

/// Two strictly increasing sequences holding the same positions are equal.
proof fn lemma_same_increasing(a: Seq<u32>, b: Seq<u32>)
    requires
        increasing(a),
        increasing(b),
        forall|x: u32| a.contains(x) <==> b.contains(x),
    ensures
        a == b,
    decreases a.len(),
{
    if a.len() == 0 {
        if b.len() > 0 {
            assert(b.contains(b[0]));
        }
        assert(a =~= b);
    } else {
        assert(a.contains(a[0]));
        assert(b.len() > 0);
        assert(b.contains(b[0]));
        let ia = choose|i: int| 0 <= i < a.len() && a[i] == b[0];
        let ib = choose|i: int| 0 <= i < b.len() && b[i] == a[0];
        assert(a[0] <= a[ia]);
        assert(b[0] <= b[ib]);
        assert(a[0] == b[0]);
        let a1 = a.drop_first();
        let b1 = b.drop_first();
        assert forall|x: u32| a1.contains(x) <==> b1.contains(x) by {
            if a1.contains(x) {
                let i = choose|i: int| 0 <= i < a1.len() && a1[i] == x;
                assert(a[i + 1] == x);
                assert(x > a[0]);
                assert(a.contains(x));
                let j = choose|j: int| 0 <= j < b.len() && b[j] == x;
                assert(j > 0);
                assert(b1[j - 1] == x);
            }
            if b1.contains(x) {
                let i = choose|i: int| 0 <= i < b1.len() && b1[i] == x;
                assert(b[i + 1] == x);
                assert(x > b[0]);
                assert(b.contains(x));
                let j = choose|j: int| 0 <= j < a.len() && a[j] == x;
                assert(j > 0);
                assert(a1[j - 1] == x);
            }
        }
        lemma_same_increasing(a1, b1);
        assert(a =~= seq![a[0]] + a1);
        assert(b =~= seq![b[0]] + b1);
    }
}

/// The state of a streamed answer being read.
pub struct StreamAccumulator {
    deltas: Vec<StreamDelta>,
    calls: std::collections::BTreeMap<u32, AccEntry>,
    order: Ghost<Seq<EntryView>>,
    finish_reason: Option<String>,
    usage: Option<Usage>,
}

impl StreamAccumulator {
    pub closed spec fn view(&self) -> AccView {
        AccView {
            deltas: deltas_view(self.deltas@),
            entries: self.order@,
            finish_reason: opt_view(self.finish_reason),
            usage: self.usage,
        }
    }

    pub closed spec fn wf(&self) -> bool {
        &&& sorted_entries(self.order@)
        &&& forall|i: int|
            0 <= i < self.order@.len() ==> self.calls@.contains_key(#[trigger] self.order@[i].index)
                && self.calls@[self.order@[i].index].view() == self.order@[i]
        &&& forall|k: u32|
            #[trigger] self.calls@.contains_key(k) ==> exists|i: int|
                0 <= i < self.order@.len() && self.order@[i].index == k
        &&& forall|k: u32| #[trigger] self.calls@.contains_key(k) ==> self.calls@[k].index == k
    }

    /// Nothing read yet.
    pub fn new() -> (a: StreamAccumulator)
        ensures
            a.wf(),
            a.view() == (AccView {
                deltas: Seq::empty(),
                entries: Seq::empty(),
                finish_reason: None,
                usage: None,
            }),
    {
        broadcast use vstd::std_specs::btree::group_btree_axioms;
        let a = StreamAccumulator {
            deltas: Vec::new(),
            calls: std::collections::BTreeMap::new(),
            order: Ghost(Seq::empty()),
            finish_reason: None,
            usage: None,
        };
        assert(a.view().deltas =~= Seq::<DeltaView>::empty());
        a
    }

    fn upsert_fragment(&mut self, f: &ToolCallChunk)
        requires
            old(self).wf(),
        ensures
            final(self).wf(),
            final(self).view() == (AccView {
                entries: upsert(old(self).view().entries, f.view()),
                ..old(self).view()
            }),
    {
        broadcast use vstd::std_specs::btree::group_btree_axioms;
        let ghost es = self.order@;
        let ghost m0 = self.calls@;
        let ghost p = first_at_least(es, f.index);
        proof {
            lemma_first_at_least(es, f.index);
        }
        let existing = match self.calls.get(&f.index) {
            Some(e) => Some((e.id.clone(), e.name.clone(), e.arguments.clone())),
            None => None,
        };
        match existing {
            Some((id0, name0, args0)) => {
                proof {
                    assert(m0.contains_key(f.index));
                    let i = choose|i: int| 0 <= i < es.len() && es[i].index == f.index;
                    if i < p {
                        assert(es[i].index < f.index);
                    }
                    if i > p {
                        assert(es[p].index < es[i].index);
                        assert(es[p].index >= f.index);
                    }
                    assert(i == p);
                    assert(m0[f.index].view() == es[p]);
                }
                let id = match &f.id {
                    Some(i) => i.clone(),
                    None => id0,
                };
                let name = match &f.name {
                    Some(n) => n.clone(),
                    None => name0,
                };
                let arguments = match &f.arguments {
                    Some(a) => args0.concat(a.as_str()),
                    None => args0,
                };
                let e = AccEntry { index: f.index, id, name, arguments };
                let ghost ne = apply_fragment(es[p], f.view());
                assert(e.view() == ne);
                self.calls.insert(f.index, e);
                self.order = Ghost(es.update(p, ne));
                proof {
                    let nes = self.order@;
                    assert forall|i: int, j: int| 0 <= i < j < nes.len() implies #[trigger] nes[i].index
                        < #[trigger] nes[j].index by {
                        assert(es[i].index < es[j].index);
                    }
                    assert forall|i: int| 0 <= i < nes.len() implies self.calls@.contains_key(#[trigger] nes[i].index)
                        && self.calls@[nes[i].index].view() == nes[i] by {
                        if i != p {
                            assert(es[i].index != es[p].index);
                        }
                    }
                    assert forall|k: u32| #[trigger] self.calls@.contains_key(k) implies exists|i: int|
                        0 <= i < nes.len() && nes[i].index == k by {
                        if k == f.index {
                            assert(nes[p].index == k);
                        } else {
                            assert(m0.contains_key(k));
                            let i = choose|i: int| 0 <= i < es.len() && es[i].index == k;
                            assert(nes[i].index == k);
                        }
                    }
                }
            },
            None => {
                proof {
                    assert(!m0.contains_key(f.index));
                    if p < es.len() {
                        assert(m0.contains_key(es[p].index));
                        assert(es[p].index > f.index);
                    }
                }
                let id = match &f.id {
                    Some(i) => i.clone(),
                    None => String::new(),
                };
                let name = match &f.name {
                    Some(n) => n.clone(),
                    None => String::new(),
                };
                let arguments = match &f.arguments {
                    Some(a) => String::new().concat(a.as_str()),
                    None => String::new(),
                };
                let e = AccEntry { index: f.index, id, name, arguments };
                let ghost ne = apply_fragment(empty_entry(f.index), f.view());
                assert(e.view() == ne);
                self.calls.insert(f.index, e);
                self.order = Ghost(es.insert(p, ne));
                proof {
                    let nes = self.order@;
                    assert forall|i: int, j: int| 0 <= i < j < nes.len() implies #[trigger] nes[i].index
                        < #[trigger] nes[j].index by {
                        if j < p {
                            assert(nes[i] == es[i] && nes[j] == es[j]);
                        } else if j == p {
                            assert(nes[i] == es[i]);
                        } else if i < p {
                            assert(nes[i] == es[i] && nes[j] == es[j - 1]);
                            assert(es[j - 1].index >= es[p].index);
                        } else if i == p {
                            assert(nes[j] == es[j - 1]);
                            assert(es[j - 1].index >= es[p].index);
                        } else {
                            assert(nes[i] == es[i - 1] && nes[j] == es[j - 1]);
                        }
                    }
                    assert forall|i: int| 0 <= i < nes.len() implies self.calls@.contains_key(#[trigger] nes[i].index)
                        && self.calls@[nes[i].index].view() == nes[i] by {
                        if i < p {
                            assert(nes[i] == es[i]);
                        } else if i > p {
                            assert(nes[i] == es[i - 1]);
                        }
                    }
                    assert forall|k: u32| #[trigger] self.calls@.contains_key(k) implies exists|i: int|
                        0 <= i < nes.len() && nes[i].index == k by {
                        if k == f.index {
                            assert(nes[p].index == k);
                        } else {
                            assert(m0.contains_key(k));
                            let i = choose|i: int| 0 <= i < es.len() && es[i].index == k;
                            if i < p {
                                assert(nes[i] == es[i]);
                                assert(nes[i].index == k);
                            } else {
                                assert(nes[i + 1] == es[i]);
                                assert(nes[i + 1].index == k);
                            }
                        }
                    }
                }
            },
        }
    }
    /// Read a decoded chunk.
    pub fn apply(&mut self, chunk: StreamChunk)
        requires
            old(self).wf(),
        ensures
            final(self).wf(),
            final(self).view() == apply_chunk(old(self).view(), chunk.view()),
    {
        let ghost st0 = self.view();
        let ghost fs = fragments_view(chunk.tool_calls@);
        match chunk.finish_reason {
            Some(fr) => {
                if !same_chars(&chars_of(fr.as_str()), &chars_of("null")) {
                    self.finish_reason = Some(fr);
                }
            },
            None => {},
        }
        match chunk.content {
            Some(t) => {
                let ghost before = deltas_view(self.deltas@);
                self.deltas.push(StreamDelta::Text(t));
                proof {
                    assert(deltas_view(self.deltas@) =~= before.push(DeltaView::Text(t@)));
                }
            },
            None => {},
        }
        let mut i: usize = 0;
        proof {
            assert(fs.skip(0) =~= fs);
        }
        while i < chunk.tool_calls.len()
            invariant
                i <= chunk.tool_calls@.len(),
                fs == fragments_view(chunk.tool_calls@),
                self.wf(),
                upsert_all(self.view().entries, fs.skip(i as int)) == upsert_all(st0.entries, fs),
                self.view().deltas == (match chunk.content@ {
                    Some(t) => st0.deltas.push(DeltaView::Text(t@)),
                    None => st0.deltas,
                }),
                self.view().finish_reason == apply_chunk(st0, chunk.view()).finish_reason,
                self.usage == st0.usage,
            decreases chunk.tool_calls.len() - i,
        {
            proof {
                assert(fs.skip(i as int)[0] == chunk.tool_calls@[i as int].view());
                assert(fs.skip(i as int).drop_first() =~= fs.skip(i + 1));
            }
            self.upsert_fragment(&chunk.tool_calls[i]);
            i = i + 1;
        }
        proof {
            assert(fs.skip(i as int) =~= Seq::<FragmentView>::empty());
        }
        match chunk.usage {
            Some(u) => {
                self.usage = Some(u);
            },
            None => {},
        }
    }

    /// The deltas of the whole stream.
    pub fn finish(self) -> (d: Vec<StreamDelta>)
        requires
            self.wf(),
        ensures
            deltas_view(d@) == final_deltas(self.view()),
    {
        broadcast use vstd::std_specs::btree::group_btree_axioms;
        let ghost st = self.view();
        let ghost es = self.order@;
        let ghost m = self.calls@;
        let mut d = self.deltas;
        let ghost sq = vstd::std_specs::iter::IteratorSpec::remaining(
            &vstd::std_specs::btree::spec_btree_map_iter(&self.calls),
        );
        let ghost mut cnt: int = 0;
        for kv in it: self.calls.iter()
            invariant
                it.seq() == sq,
                cnt == it.index(),
                vstd::std_specs::btree::increasing_seq(sq.map_values(|kv: (&u32, &AccEntry)| *kv.0)),
                sq.len() == m.dom().len(),
                forall|i: int|
                    0 <= i < sq.len() ==> m.contains_key(*sq[i].0) && m[*sq[i].0] == *sq[i].1,
                forall|k: u32| m.contains_key(k) ==> sq.contains((&k, &m[k])),
                self.calls@ == m,
                es == self.order@,
                self.wf(),
                cnt <= sq.len(),
                deltas_view(d@) == st.deltas + flush(sq.take(cnt).map_values(|kv: (&u32, &AccEntry)| kv.1.view())),
        {
            let (k, e) = kv;
            let ghost before = deltas_view(d@);
            let ghost done_part = sq.take(cnt).map_values(|kv: (&u32, &AccEntry)| kv.1.view());
            proof {
                assert(sq[cnt] == (k, e));
                assert(sq.take(cnt + 1).map_values(|kv: (&u32, &AccEntry)| kv.1.view()) =~= done_part.push(e.view()));
                lemma_flush_push(done_part, e.view());
            }
            if !e.name.as_str().is_empty() {
                let tc = ToolCall {
                    id: e.id.clone(),
                    kind: String::from_str("function"),
                    function: FunctionCall { name: e.name.clone(), arguments: e.arguments.clone() },
                };
                d.push(StreamDelta::ToolCall(tc));
                proof {
                    assert(deltas_view(d@) =~= before.push(DeltaView::ToolCall(tc.view())));
                }
            }
            proof {
                cnt = cnt + 1;
            }
        }
        proof {
            assert(cnt == sq.len());
            assert(sq.take(cnt) =~= sq);
            let ks = sq.map_values(|kv: (&u32, &AccEntry)| *kv.0);
            lemma_increasing_keys(ks);
            let ev = sq.map_values(|kv: (&u32, &AccEntry)| kv.1.view());
            let os = es.map_values(|e: EntryView| e.index);
            assert forall|x: u32| ks.contains(x) <==> os.contains(x) by {
                if ks.contains(x) {
                    let i = choose|i: int| 0 <= i < ks.len() && ks[i] == x;
                    assert(m.contains_key(x));
                    let j = choose|j: int| 0 <= j < es.len() && es[j].index == x;
                    assert(os[j] == x);
                }
                if os.contains(x) {
                    let j = choose|j: int| 0 <= j < os.len() && os[j] == x;
                    assert(m.contains_key(es[j].index));
                    assert(sq.contains((&x, &m[x])));
                    let i = choose|i: int| 0 <= i < sq.len() && sq[i] == (&x, &m[x]);
                    assert(ks[i] == x);
                }
            }
            assert(increasing(os)) by {
                assert forall|i: int, j: int| 0 <= i < j < os.len() implies os[i] < os[j] by {
                    assert(es[i].index < es[j].index);
                }
            }
            lemma_same_increasing(ks, os);
            assert forall|i: int| 0 <= i < ev.len() implies ev[i] == es[i] by {
                assert(ks[i] == os[i]);
                assert(m[*sq[i].0] == *sq[i].1);
                assert(m.contains_key(es[i].index));
                assert(m[es[i].index].view() == es[i]);
                assert(m[*sq[i].0].index == *sq[i].0);
            }
            assert(ev =~= es);
        }
        let ghost mid = deltas_view(d@);
        d.push(StreamDelta::Done { finish_reason: self.finish_reason, usage: self.usage });
        proof {
            assert(deltas_view(d@) =~= mid.push(
                DeltaView::Done { finish_reason: st.finish_reason, usage: st.usage },
            ));
        }
        d
    }
}

/// Flushing one more call after the others: its delta, if it got a name,
/// comes after theirs.
proof fn lemma_flush_push(es: Seq<EntryView>, e: EntryView)
    ensures
        flush(es.push(e)) == flush(es) + (if e.name.len() > 0 {
            seq![
                DeltaView::ToolCall(
                    ToolCallView { id: e.id, kind: "function"@, name: e.name, arguments: e.arguments },
                ),
            ]
        } else {
            Seq::empty()
        }),
    decreases es.len(),
{
    if es.len() == 0 {
        assert(es.push(e).drop_first() =~= Seq::<EntryView>::empty());
        assert(flush(Seq::<EntryView>::empty()) == Seq::<DeltaView>::empty());
        assert(flush(es.push(e)) =~= flush(es) + (if e.name.len() > 0 {
            seq![
                DeltaView::ToolCall(
                    ToolCallView { id: e.id, kind: "function"@, name: e.name, arguments: e.arguments },
                ),
            ]
        } else {
            Seq::empty()
        }));
    } else {
        assert(es.push(e).drop_first() =~= es.drop_first().push(e));
        lemma_flush_push(es.drop_first(), e);
        assert(flush(es.push(e)) =~= flush(es) + (if e.name.len() > 0 {
            seq![
                DeltaView::ToolCall(
                    ToolCallView { id: e.id, kind: "function"@, name: e.name, arguments: e.arguments },
                ),
            ]
        } else {
            Seq::empty()
        }));
    }
}

proof fn lemma_increasing_keys(ks: Seq<u32>)
    requires
        vstd::std_specs::btree::increasing_seq(ks),
    ensures
        forall|i: int, j: int| 0 <= i < j < ks.len() ==> ks[i] < ks[j],
{
    broadcast use {vstd::laws_cmp::group_laws_cmp, vstd::std_specs::btree::axiom_increasing_seq_meaning};
    assert(vstd::laws_cmp::obeys_cmp::<u32>());
    assert forall|i: int, j: int| 0 <= i < j < ks.len() implies ks[i] < ks[j] by {
        assert(vstd::std_specs::cmp::OrdSpec::cmp_spec(&ks[i], &ks[j]) is Less);
    }
}

} // verus!
