use vstd::prelude::*;

verus! {

/// Who spoke a turn.
#[derive(Debug, Clone, Copy, PartialEq, Eq, Structural)]
pub enum Role {
    User,
    Assistant,
}

/// The kind of a content segment that is carried through but not interpreted.
#[derive(Debug, Clone, Copy, PartialEq, Eq, Structural)]
pub enum AttachmentKind {
    Image,
    Audio,
    Video,
    Document,
    ToolResult,
    ToolCall,
    Reasoning,
}

/// One piece of a turn's content: text, or an opaque payload of some other kind.
pub enum Segment {
    Text(String),
    Attachment(AttachmentKind, String),
}

pub enum SegmentView {
    Text(Seq<char>),
    Attachment(AttachmentKind, Seq<char>),
}

impl View for Segment {
    type V = SegmentView;

    open spec fn view(&self) -> SegmentView {
        match self {
            Segment::Text(t) => SegmentView::Text(t@),
            Segment::Attachment(k, p) => SegmentView::Attachment(*k, p@),
        }
    }
}

impl Clone for Segment {
    fn clone(&self) -> (r: Segment)
        ensures
            r@ == self@,
    {
        match self {
            Segment::Text(t) => Segment::Text(t.clone()),
            Segment::Attachment(k, p) => Segment::Attachment(*k, p.clone()),
        }
    }
}

/// One message of a conversation.
pub struct Turn {
    pub role: Role,
    pub content: Vec<Segment>,
}

pub struct TurnView {
    pub role: Role,
    pub content: Seq<SegmentView>,
}

pub open spec fn segment_views(c: Seq<Segment>) -> Seq<SegmentView> {
    c.map_values(|s: Segment| s@)
}

pub open spec fn turn_views(h: Seq<Turn>) -> Seq<TurnView> {
    h.map_values(|t: Turn| t@)
}

impl View for Turn {
    type V = TurnView;

    open spec fn view(&self) -> TurnView {
        TurnView { role: self.role, content: segment_views(self.content@) }
    }
}

/// A turn whose content is one text segment.
pub open spec fn text_turn(role: Role, text: Seq<char>) -> TurnView {
    TurnView { role, content: seq![SegmentView::Text(text)] }
}

fn clone_content(c: &Vec<Segment>) -> (r: Vec<Segment>)
    ensures
        segment_views(r@) == segment_views(c@),
{
    let mut r: Vec<Segment> = Vec::new();
    let mut i: usize = 0;
    while i < c.len()
        invariant
            i <= c@.len(),
            r@.len() == i,
            forall|k: int| 0 <= k < i ==> (#[trigger] r@[k])@ == c@[k]@,
        decreases c@.len() - i,
    {
        let s = c[i].clone();
        r.push(s);
        i = i + 1;
    }
    assert(segment_views(r@) =~= segment_views(c@));
    r
}

impl Clone for Turn {
    fn clone(&self) -> (r: Turn)
        ensures
            r@ == self@,
    {
        Turn { role: self.role, content: clone_content(&self.content) }
    }
}

impl Turn {
    pub fn text(role: Role, text: String) -> (r: Turn)
        ensures
            r@ == text_turn(role, text@),
    {
        let mut content: Vec<Segment> = Vec::new();
        content.push(Segment::Text(text));
        let r = Turn { role, content };
        assert(r@.content =~= seq![SegmentView::Text(text@)]);
        r
    }

    pub fn user(text: String) -> (r: Turn)
        ensures
            r@ == text_turn(Role::User, text@),
    {
        Turn::text(Role::User, text)
    }

    pub fn assistant(text: String) -> (r: Turn)
        ensures
            r@ == text_turn(Role::Assistant, text@),
    {
        Turn::text(Role::Assistant, text)
    }
}

/// A copy of `v[lo..hi]`, turn by turn.
pub fn clone_turns(v: &[Turn], lo: usize, hi: usize) -> (r: Vec<Turn>)
    requires
        lo <= hi <= v@.len(),
    ensures
        turn_views(r@) == turn_views(v@.subrange(lo as int, hi as int)),
{
    let mut r: Vec<Turn> = Vec::new();
    let mut i: usize = lo;
    while i < hi
        invariant
            lo <= i <= hi <= v@.len(),
            r@.len() == i - lo,
            forall|k: int| 0 <= k < i - lo ==> (#[trigger] r@[k])@ == v@[lo + k]@,
        decreases hi - i,
    {
        let t = v[i].clone();
        r.push(t);
        i = i + 1;
    }
    assert(turn_views(r@) =~= turn_views(v@.subrange(lo as int, hi as int)));
    r
}

/// The last `limit` turns of `h`, or all of them when there are fewer.
pub open spec fn last_turns(h: Seq<TurnView>, limit: nat) -> Seq<TurnView> {
    if h.len() <= limit {
        h
    } else {
        h.subrange(h.len() - limit, h.len() as int)
    }
}

/// The ordered log of the turns of a conversation.
pub struct History {
    turns: Vec<Turn>,
}

impl View for History {
    type V = Seq<TurnView>;

    closed spec fn view(&self) -> Seq<TurnView> {
        turn_views(self.turns@)
    }
}

impl History {
    pub fn new() -> (r: History)
        ensures
            r@ == Seq::<TurnView>::empty(),
    {
        let r = History { turns: Vec::new() };
        assert(r@ =~= Seq::<TurnView>::empty());
        r
    }

    pub fn len(&self) -> (r: usize)
        ensures
            r == self@.len(),
    {
        self.turns.len()
    }

    pub fn is_empty(&self) -> (r: bool)
        ensures
            r == (self@.len() == 0),
    {
        self.turns.len() == 0
    }

    pub fn turns(&self) -> (r: &[Turn])
        ensures
            turn_views(r@) == self@,
    {
        self.turns.as_slice()
    }

    /// Adds a turn at the end.
    pub fn append(&mut self, turn: Turn)
        ensures
            final(self)@ == old(self)@.push(turn@),
    {
        self.turns.push(turn);
        assert(turn_views(self.turns@) =~= turn_views(old(self).turns@).push(turn@));
    }

    /// Removes every turn.
    pub fn clear(&mut self)
        ensures
            final(self)@ == Seq::<TurnView>::empty(),
    {
        self.turns.clear();
        assert(turn_views(self.turns@) =~= Seq::<TurnView>::empty());
    }

    /// Puts `turns` in place of the whole log.
    pub fn replace(&mut self, turns: Vec<Turn>)
        ensures
            final(self)@ == turn_views(turns@),
    {
        self.turns = turns;
    }

    /// The last `limit` turns, in their original order.
    pub fn snapshot(&self, limit: usize) -> (r: Vec<Turn>)
        ensures
            turn_views(r@) == last_turns(self@, limit as nat),
    {
        let n = self.turns.len();
        let lo: usize = if n <= limit {
            0
        } else {
            n - limit
        };
        let r = clone_turns(self.turns.as_slice(), lo, n);
        assert(self.turns@.subrange(lo as int, n as int).map_values(|t: Turn| t@) =~= last_turns(
            self@,
            limit as nat,
        ));
        r
    }

    /// The persisted form of this history, keyed by `id`: the role and the text
    /// segments of each turn.
    pub fn to_persisted_record(&self, id: u16) -> (r: PersistedRecord)
        ensures
            r@ == record_of(id, self@),
    {
        let mut entries: Vec<RecordEntry> = Vec::new();
        let mut i: usize = 0;
        while i < self.turns.len()
            invariant
                i <= self.turns@.len(),
                entries@.len() == i,
                forall|k: int| 0 <= k < i ==> (#[trigger] entries@[k])@ == entry_of(self.turns@[k]@),
            decreases self.turns@.len() - i,
        {
            let e = RecordEntry::of_turn(&self.turns[i]);
            entries.push(e);
            i = i + 1;
        }
        let r = PersistedRecord { id, entries };
        assert(r@.entries =~= self@.map_values(|t: TurnView| entry_of(t)));
        r
    }

    /// The history that a persisted record describes: one text turn per entry.
    pub fn from_persisted_record(record: &PersistedRecord) -> (r: History)
        ensures
            r@ == history_of(record@),
    {
        let mut turns: Vec<Turn> = Vec::new();
        let mut i: usize = 0;
        while i < record.entries.len()
            invariant
                i <= record.entries@.len(),
                turns@.len() == i,
                forall|k: int| 0 <= k < i ==> (#[trigger] turns@[k])@ == turn_of(record.entries@[k]@),
            decreases record.entries@.len() - i,
        {
            let t = record.entries[i].to_turn();
            turns.push(t);
            i = i + 1;
        }
        let r = History { turns };
        assert(r@ =~= record@.entries.map_values(|e: EntryView| turn_of(e)));
        r
    }
}

/// The text segments of a turn, in order, without the other kinds.
pub open spec fn text_segments(c: Seq<SegmentView>) -> Seq<Seq<char>>
    decreases c.len(),
{
    if c.len() == 0 {
        Seq::empty()
    } else {
        match c.last() {
            SegmentView::Text(t) => text_segments(c.drop_last()).push(t),
            SegmentView::Attachment(_, _) => text_segments(c.drop_last()),
        }
    }
}

/// One persisted turn: its role and its text segments.
pub struct RecordEntry {
    pub role: Role,
    pub texts: Vec<String>,
}

pub struct EntryView {
    pub role: Role,
    pub texts: Seq<Seq<char>>,
}

pub open spec fn string_views(v: Seq<String>) -> Seq<Seq<char>> {
    v.map_values(|s: String| s@)
}

pub open spec fn entry_views(v: Seq<RecordEntry>) -> Seq<EntryView> {
    v.map_values(|e: RecordEntry| e@)
}

impl View for RecordEntry {
    type V = EntryView;

    open spec fn view(&self) -> EntryView {
        EntryView { role: self.role, texts: string_views(self.texts@) }
    }
}

/// The persisted form of a conversation's history, keyed by its session's id.
pub struct PersistedRecord {
    pub id: u16,
    pub entries: Vec<RecordEntry>,
}

pub struct RecordView {
    pub id: u16,
    pub entries: Seq<EntryView>,
}

impl View for PersistedRecord {
    type V = RecordView;

    open spec fn view(&self) -> RecordView {
        RecordView { id: self.id, entries: entry_views(self.entries@) }
    }
}

pub open spec fn entry_of(t: TurnView) -> EntryView {
    EntryView { role: t.role, texts: text_segments(t.content) }
}

pub open spec fn record_of(id: u16, h: Seq<TurnView>) -> RecordView {
    RecordView { id, entries: h.map_values(|t: TurnView| entry_of(t)) }
}

pub open spec fn turn_of(e: EntryView) -> TurnView {
    TurnView { role: e.role, content: e.texts.map_values(|t: Seq<char>| SegmentView::Text(t)) }
}

pub open spec fn history_of(r: RecordView) -> Seq<TurnView> {
    r.entries.map_values(|e: EntryView| turn_of(e))
}

/// A history in which every segment is text.
pub open spec fn text_only(h: Seq<TurnView>) -> bool {
    forall|i: int, j: int|
        0 <= i < h.len() && 0 <= j < h[i].content.len() ==> (#[trigger] h[i].content[j] is Text)
}

impl RecordEntry {
    pub fn of_turn(t: &Turn) -> (r: RecordEntry)
        ensures
            r@ == entry_of(t@),
    {
        let mut texts: Vec<String> = Vec::new();
        let mut j: usize = 0;
        while j < t.content.len()
            invariant
                j <= t.content@.len(),
                string_views(texts@) == text_segments(segment_views(t.content@.subrange(0, j as int))),
            decreases t.content@.len() - j,
        {
            let ghost before = segment_views(t.content@.subrange(0, j as int));
            let ghost after = segment_views(t.content@.subrange(0, j + 1));
            assert(after.drop_last() =~= before);
            match &t.content[j] {
                Segment::Text(s) => {
                    texts.push(s.clone());
                    assert(string_views(texts@) =~= text_segments(after));
                },
                Segment::Attachment(_, _) => {},
            }
            j = j + 1;
        }
        assert(t.content@.subrange(0, j as int) =~= t.content@);
        RecordEntry { role: t.role, texts }
    }

    pub fn to_turn(&self) -> (r: Turn)
        ensures
            r@ == turn_of(self@),
    {
        let mut content: Vec<Segment> = Vec::new();
        let mut j: usize = 0;
        while j < self.texts.len()
            invariant
                j <= self.texts@.len(),
                content@.len() == j,
                forall|k: int| 0 <= k < j ==> (#[trigger] content@[k])@ == SegmentView::Text(self.texts@[k]@),
            decreases self.texts@.len() - j,
        {
            content.push(Segment::Text(self.texts[j].clone()));
            j = j + 1;
        }
        let r = Turn { role: self.role, content };
        assert(r@.content =~= self@.texts.map_values(|t: Seq<char>| SegmentView::Text(t)));
        r
    }
}

proof fn lemma_text_content_round_trip(c: Seq<SegmentView>)
    requires
        forall|j: int| 0 <= j < c.len() ==> (#[trigger] c[j] is Text),
    ensures
        text_segments(c).map_values(|t: Seq<char>| SegmentView::Text(t)) == c,
    decreases c.len(),
{
    if c.len() > 0 {
        let p = c.drop_last();
        assert forall|j: int| 0 <= j < p.len() implies (#[trigger] p[j] is Text) by {
            assert(p[j] == c[j]);
        }
        lemma_text_content_round_trip(p);
        assert(c[c.len() - 1] is Text);
        let t = c.last()->Text_0;
        assert(text_segments(c) == text_segments(p).push(t));
        let m = text_segments(c).map_values(|t: Seq<char>| SegmentView::Text(t));
        let mp = text_segments(p).map_values(|t: Seq<char>| SegmentView::Text(t));
        assert forall|k: int| 0 <= k < c.len() implies #[trigger] m[k] == c[k] by {
            if k < p.len() {
                assert(m[k] == SegmentView::Text(text_segments(p)[k]));
                assert(mp[k] == p[k]);
            }
        }
        assert(m =~= c);
    } else {
        assert(text_segments(c).map_values(|t: Seq<char>| SegmentView::Text(t)) =~= c);
    }
}

/// Persisting a history and reading the record back gives the same history,
/// whenever every segment of it is text.
pub proof fn lemma_record_round_trip(id: u16, h: Seq<TurnView>)
    requires
        text_only(h),
    ensures
        history_of(record_of(id, h)) == h,
        record_of(id, h).id == id,
{
    assert forall|i: int| 0 <= i < h.len() implies #[trigger] turn_of(entry_of(h[i])) == h[i] by {
        assert forall|j: int| 0 <= j < h[i].content.len() implies (#[trigger] h[i].content[j] is Text) by {
        }
        lemma_text_content_round_trip(h[i].content);
    }
    assert(history_of(record_of(id, h)) =~= h);
}

/// Appending turns one by one and then taking a snapshot of `limit` turns
/// gives the last `min(limit, len)` turns of the resulting history, in their
/// original order.
pub proof fn lemma_snapshot_after_appends(h: Seq<TurnView>, added: Seq<TurnView>, limit: nat)
    ensures
        appended(h, added) == h + added,
        ({
            let all = h + added;
            let k = if limit < all.len() {
                limit
            } else {
                all.len()
            };
            last_turns(appended(h, added), limit) == all.subrange(all.len() - k, all.len() as int)
        }),
{
    lemma_appended(h, added);
    let all = h + added;
    assert(all.subrange(0, all.len() as int) =~= all);
}

/// The history after each of `added` was appended to `h`, in order.
pub open spec fn appended(h: Seq<TurnView>, added: Seq<TurnView>) -> Seq<TurnView>
    decreases added.len(),
{
    if added.len() == 0 {
        h
    } else {
        appended(h, added.drop_last()).push(added.last())
    }
}

pub proof fn lemma_appended(h: Seq<TurnView>, added: Seq<TurnView>)
    ensures
        appended(h, added) == h + added,
    decreases added.len(),
{
    if added.len() > 0 {
        lemma_appended(h, added.drop_last());
        assert(h + added =~= (h + added.drop_last()).push(added.last()));
    } else {
        assert(h + added =~= h);
    }
}

} // verus!
