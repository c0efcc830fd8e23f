//! The history of pane sources: for each source, the directory last shown,
//! most recent first, at most fifty sources.
use vstd::prelude::*;

use crate::source::{LocationPath, LocationPathView, SourceKind, SourceRef, stable_key_spec,
    source_ref_kind};

verus! {

/// The most sources the history remembers.
pub const HISTORY_LIMIT: usize = 50;

/// One remembered source.
#[derive(Debug, Clone, PartialEq, Eq)]
pub struct HistoryEntry {
    pub source_kind: SourceKind,
    pub source_key: String,
    pub label: String,
    pub last_path: LocationPath,
    pub last_used_at: u64,
}

/// The mathematical form of a [`HistoryEntry`].
pub struct HistoryEntryView {
    pub source_kind: SourceKind,
    pub source_key: Seq<char>,
    pub label: Seq<char>,
    pub last_path: LocationPathView,
    pub last_used_at: u64,
}

impl View for HistoryEntry {
    type V = HistoryEntryView;

    open spec fn view(&self) -> HistoryEntryView {
        HistoryEntryView {
            source_kind: self.source_kind,
            source_key: self.source_key@,
            label: self.label@,
            last_path: self.last_path@,
            last_used_at: self.last_used_at,
        }
    }
}

pub open spec fn history_views(s: Seq<HistoryEntry>) -> Seq<HistoryEntryView> {
    s.map_values(|e: HistoryEntry| e@)
}

/// The entries whose key is not `key`, in order.
pub open spec fn without_key(s: Seq<HistoryEntryView>, key: Seq<char>) -> Seq<HistoryEntryView>
    decreases s.len(),
{
    if s.len() == 0 {
        s
    } else if s.last().source_key == key {
        without_key(s.drop_last(), key)
    } else {
        without_key(s.drop_last(), key).push(s.last())
    }
}

/// The path of the first entry with the given key.
pub open spec fn first_path_for(s: Seq<HistoryEntryView>, key: Seq<char>) -> Option<LocationPathView>
    decreases s.len(),
{
    if s.len() == 0 {
        None
    } else if s[0].source_key == key {
        Some(s[0].last_path)
    } else {
        first_path_for(s.drop_first(), key)
    }
}

/// The history after recording `e`: `e` first, then the other sources in
/// their order, cut to the limit.
pub open spec fn record_spec(s: Seq<HistoryEntryView>, e: HistoryEntryView) -> Seq<HistoryEntryView> {
    let all = seq![e] + without_key(s, e.source_key);
    if all.len() > HISTORY_LIMIT {
        all.take(HISTORY_LIMIT as int)
    } else {
        all
    }
}

/// `e` placed after every entry at least as recent (the step of a stable
/// sort, newest first).
pub open spec fn insert_by_recency(sorted: Seq<HistoryEntryView>, e: HistoryEntryView) -> Seq<HistoryEntryView>
    decreases sorted.len(),
{
    if sorted.len() == 0 {
        seq![e]
    } else if sorted.last().last_used_at < e.last_used_at {
        insert_by_recency(sorted.drop_last(), e).push(sorted.last())
    } else {
        sorted.push(e)
    }
}

/// The entries stably sorted by last use, newest first.
pub open spec fn sort_by_recency(s: Seq<HistoryEntryView>) -> Seq<HistoryEntryView>
    decreases s.len(),
{
    if s.len() == 0 {
        s
    } else {
        insert_by_recency(sort_by_recency(s.drop_last()), s.last())
    }
}

/// Reading and recording the last directory of each source.
pub trait HistoryStore {
    /// The remembered sources, in order.
    spec fn history(&self) -> Seq<HistoryEntryView>;

    fn entries(&self) -> (res: &Vec<HistoryEntry>)
        ensures
            history_views(res@) == self.history(),
    ;

    fn last_path_for(&self, source: &SourceRef) -> (res: Option<LocationPath>)
        ensures
            match res {
                Some(p) => first_path_for(self.history(), stable_key_spec(source@)) == Some(p@),
                None => first_path_for(self.history(), stable_key_spec(source@)) is None,
            },
    ;

    /// Records that `source`, labelled `label`, now shows `path`; the
    /// entry's time is the current time.
    fn record(&mut self, source: &SourceRef, label: &str, path: &LocationPath)
        ensures
            exists|now: u64|
                final(self).history() == record_spec(
                    old(self).history(),
                    HistoryEntryView {
                        source_kind: source_ref_kind(source@),
                        source_key: stable_key_spec(source@),
                        label: label@,
                        last_path: path@,
                        last_used_at: now,
                    },
                ),
    ;
}

/// The history kept in `history.toml`.
#[derive(Debug, Clone, Default)]
pub struct TomlHistoryStore {
    entries: Vec<HistoryEntry>,
}

impl HistoryEntry {
    fn duplicate(&self) -> (res: HistoryEntry)
        ensures
            res@ == self@,
    {
        HistoryEntry {
            source_kind: self.source_kind,
            source_key: self.source_key.clone(),
            label: self.label.clone(),
            last_path: self.last_path.duplicate(),
            last_used_at: self.last_used_at,
        }
    }
}

#[verifier::external_type_specification]
#[verifier::external_body]
pub struct ExSystemTime(std::time::SystemTime);

#[verifier::external_type_specification]
#[verifier::external_body]
pub struct ExSystemTimeError(std::time::SystemTimeError);

/// `std::time::SystemTime::now`: the clock's current time.  Nothing is
/// promised of the value.
#[verifier::external_body]
fn clock_now() -> std::time::SystemTime {
    std::time::SystemTime::now()
}

/// `std::time::SystemTime::duration_since` the Unix epoch: how long after
/// the epoch `t` is, or an error when `t` is before it.  Nothing is
/// promised of the value.
#[verifier::external_body]
fn since_unix_epoch(t: &std::time::SystemTime) -> Result<std::time::Duration, std::time::SystemTimeError> {
    t.duration_since(std::time::UNIX_EPOCH)
}

/// `std::time::Duration::as_secs`: the whole seconds of a duration.
#[verifier::external_body]
fn whole_seconds(d: &std::time::Duration) -> u64 {
    d.as_secs()
}

/// The current time in whole seconds since the Unix epoch, 0 when the
/// clock is before it.  Nothing is promised of the value.
fn now_seconds() -> u64 {
    let now = clock_now();
    match since_unix_epoch(&now) {
        Ok(d) => whole_seconds(&d),
        Err(_) => 0,
    }
}

impl TomlHistoryStore {
    /// An empty history.
    pub fn new() -> (res: TomlHistoryStore)
        ensures
            res.history() == Seq::<HistoryEntryView>::empty(),
    {
        let res = TomlHistoryStore { entries: Vec::new() };
        assert(res.history() =~= Seq::<HistoryEntryView>::empty());
        res
    }

    /// The history read from a file: its entries stably sorted by last use,
    /// newest first.
    pub fn from_entries(entries: Vec<HistoryEntry>) -> (res: TomlHistoryStore)
        ensures
            res.history() == sort_by_recency(history_views(entries@)),
    {
        let mut sorted: Vec<HistoryEntry> = Vec::new();
        let mut i: usize = 0;
        proof {
            assert(history_views(entries@).take(0) =~= Seq::<HistoryEntryView>::empty());
            assert(history_views(sorted@) =~= Seq::<HistoryEntryView>::empty());
        }
        while i < entries.len()
            invariant
                i <= entries.len(),
                history_views(sorted@) == sort_by_recency(history_views(entries@).take(i as int)),
            decreases entries.len() - i,
        {
            let e = entries[i].duplicate();
            let ghost before = history_views(sorted@);
            let mut p = sorted.len();
            proof {
                assert(before.take(p as int) =~= before);
                assert(before.skip(p as int) =~= Seq::<HistoryEntryView>::empty());
                assert(insert_by_recency(before, e@) =~= insert_by_recency(before.take(p as int), e@) + before.skip(p as int));
            }
            while p > 0 && sorted[p - 1].last_used_at < e.last_used_at
                invariant
                    p <= sorted.len(),
                    before == history_views(sorted@),
                    insert_by_recency(before, e@) == insert_by_recency(before.take(p as int), e@)
                        + before.skip(p as int),
                decreases p,
            {
                proof {
                    let t = before.take(p as int);
                    assert(t.drop_last() =~= before.take(p - 1));
                    assert(t.last() == before[p - 1]);
                    assert(insert_by_recency(t, e@) == insert_by_recency(t.drop_last(), e@).push(t.last()));
                    assert(before.skip(p - 1) =~= seq![before[p - 1]] + before.skip(p as int));
                    assert(insert_by_recency(t.drop_last(), e@).push(t.last()) + before.skip(p as int)
                        =~= insert_by_recency(before.take(p - 1), e@) + before.skip(p - 1));
                }
                p = p - 1;
            }
            proof {
                let t = before.take(p as int);
                if p > 0 {
                    assert(t.last() == before[p - 1]);
                    assert(insert_by_recency(t, e@) == t.push(e@));
                } else {
                    assert(t =~= Seq::<HistoryEntryView>::empty());
                    assert(insert_by_recency(t, e@) == seq![e@]);
                }
            }
            sorted.insert(p, e);
            proof {
                let t = before.take(p as int);
                assert(history_views(sorted@) =~= before.insert(p as int, e@));
                assert(before.insert(p as int, e@) =~= t.push(e@) + before.skip(p as int));
                let s = history_views(entries@).take(i + 1);
                assert(s.drop_last() =~= history_views(entries@).take(i as int));
                assert(s.last() == e@);
            }
            i = i + 1;
        }
        proof {
            assert(history_views(entries@).take(entries.len() as int) =~= history_views(entries@));
        }
        TomlHistoryStore { entries: sorted }
    }

    /// Records that `source`, labelled `label`, showed `path` at time `now`.
    pub fn record_at(&mut self, source: &SourceRef, label: &str, path: &LocationPath, now: u64)
        ensures
            final(self).history() == record_spec(
                old(self).history(),
                HistoryEntryView {
                    source_kind: source_ref_kind(source@),
                    source_key: stable_key_spec(source@),
                    label: label@,
                    last_path: path@,
                    last_used_at: now,
                },
            ),
    {
        let key = source.stable_key();
        let entry = HistoryEntry {
            source_kind: source.kind(),
            source_key: key.clone(),
            label: crate::text::owned(label),
            last_path: path.duplicate(),
            last_used_at: now,
        };
        let ghost old_h = history_views(self.entries@);
        let mut kept: Vec<HistoryEntry> = Vec::new();
        let ghost e = entry@;
        kept.push(entry);
        let mut i: usize = 0;
        proof {
            assert(old_h.take(0) =~= Seq::<HistoryEntryView>::empty());
            assert(history_views(kept@) =~= seq![e] + without_key(old_h.take(0), key@));
        }
        while i < self.entries.len()
            invariant
                i <= self.entries.len(),
                old_h == history_views(self.entries@),
                history_views(kept@) == seq![e] + without_key(old_h.take(i as int), key@),
            decreases self.entries.len() - i,
        {
            let same = crate::text::str_eq(self.entries[i].source_key.as_str(), key.as_str());
            let ghost t = old_h.take(i + 1);
            proof {
                assert(t.drop_last() =~= old_h.take(i as int));
                assert(t.last() == self.entries[i as int]@);
            }
            if !same {
                let copy = self.entries[i].duplicate();
                kept.push(copy);
                proof {
                    assert(history_views(kept@) =~= (seq![e] + without_key(old_h.take(i as int), key@)).push(copy@));
                }
            }
            i = i + 1;
        }
        proof {
            assert(old_h.take(self.entries.len() as int) =~= old_h);
        }
        if kept.len() > HISTORY_LIMIT {
            kept.truncate(HISTORY_LIMIT);
            proof {
                assert(history_views(kept@) =~= (seq![e] + without_key(old_h, key@)).take(HISTORY_LIMIT as int));
            }
        }
        self.entries = kept;
    }
}

impl HistoryStore for TomlHistoryStore {
    closed spec fn history(&self) -> Seq<HistoryEntryView> {
        history_views(self.entries@)
    }

    fn entries(&self) -> (res: &Vec<HistoryEntry>) {
        &self.entries
    }

    fn last_path_for(&self, source: &SourceRef) -> (res: Option<LocationPath>) {
        let key = source.stable_key();
        let ghost h = history_views(self.entries@);
        let mut i: usize = 0;
        proof {
            assert(h.skip(0) =~= h);
        }
        while i < self.entries.len()
            invariant
                i <= self.entries.len(),
                h == history_views(self.entries@),
                key@ == stable_key_spec(source@),
                first_path_for(h, key@) == first_path_for(h.skip(i as int), key@),
            decreases self.entries.len() - i,
        {
            proof {
                assert(h.skip(i as int)[0] == self.entries[i as int]@);
                assert(h.skip(i as int).drop_first() =~= h.skip(i + 1));
            }
            if crate::text::str_eq(self.entries[i].source_key.as_str(), key.as_str()) {
                proof {
                    assert(h.skip(i as int).len() > 0);
                    assert(h.skip(i as int)[0].source_key == key@);
                }
                return Some(self.entries[i].last_path.duplicate());
            }
            i = i + 1;
        }
        None
    }

    fn record(&mut self, source: &SourceRef, label: &str, path: &LocationPath) {
        let now = now_seconds();
        self.record_at(source, label, path, now);
    }
}

// ---------------------------------------------------------------------------
// Laws
// ---------------------------------------------------------------------------

proof fn lemma_without_key_absent(s: Seq<HistoryEntryView>, key: Seq<char>)
    ensures
        forall|i: int| 0 <= i < without_key(s, key).len() ==> #[trigger] without_key(s, key)[i].source_key != key,
        without_key(s, key).len() <= s.len(),
    decreases s.len(),
{
    if s.len() > 0 {
        lemma_without_key_absent(s.drop_last(), key);
    }
}

/// After a source is recorded, looking it up gives the recorded path, and
/// it is the most recent entry.
pub proof fn law_record_then_lookup(s: Seq<HistoryEntryView>, e: HistoryEntryView)
    ensures
        first_path_for(record_spec(s, e), e.source_key) == Some(e.last_path),
        record_spec(s, e)[0] == e,
        record_spec(s, e).len() <= HISTORY_LIMIT,
        record_spec(s, e).len() >= 1,
{
}

/// Recording a source never leaves two entries for the same source when
/// there were none before.
pub proof fn law_record_keeps_sources_unique(s: Seq<HistoryEntryView>, e: HistoryEntryView)
    requires
        forall|i: int, j: int| 0 <= i < j < s.len() ==> #[trigger] s[i].source_key != #[trigger] s[j].source_key,
    ensures
        ({
            let r = record_spec(s, e);
            forall|i: int, j: int| 0 <= i < j < r.len() ==> #[trigger] r[i].source_key != #[trigger] r[j].source_key
        }),
{
    lemma_without_key_unique(s, e.source_key);
    lemma_without_key_absent(s, e.source_key);
}

proof fn lemma_without_key_unique(s: Seq<HistoryEntryView>, key: Seq<char>)
    requires
        forall|i: int, j: int| 0 <= i < j < s.len() ==> #[trigger] s[i].source_key != #[trigger] s[j].source_key,
    ensures
        ({
            let w = without_key(s, key);
            &&& forall|i: int, j: int| 0 <= i < j < w.len() ==> #[trigger] w[i].source_key != #[trigger] w[j].source_key
            &&& forall|i: int| 0 <= i < w.len() ==> exists|j: int| 0 <= j < s.len() && s[j] == #[trigger] w[i]
        }),
    decreases s.len(),
{
    if s.len() > 0 {
        let init = s.drop_last();
        lemma_without_key_unique(init, key);
        let w0 = without_key(init, key);
        if s.last().source_key != key {
            let w = w0.push(s.last());
            assert forall|i: int, j: int| 0 <= i < j < w.len() implies #[trigger] w[i].source_key != #[trigger] w[j].source_key by {
                if j == w.len() - 1 {
                    let k = choose|k: int| 0 <= k < init.len() && init[k] == w0[i];
                    assert(s[k] == w[i]);
                    assert(s[s.len() - 1] == w[j]);
                }
            }
            assert forall|i: int| 0 <= i < w.len() implies exists|j: int| 0 <= j < s.len() && s[j] == #[trigger] w[i] by {
                if i == w.len() - 1 {
                    assert(s[s.len() - 1] == w[i]);
                } else {
                    let k = choose|k: int| 0 <= k < init.len() && init[k] == w0[i];
                    assert(s[k] == w[i]);
                }
            }
        } else {
            assert forall|i: int| 0 <= i < w0.len() implies exists|j: int| 0 <= j < s.len() && s[j] == #[trigger] w0[i] by {
                let k = choose|k: int| 0 <= k < init.len() && init[k] == w0[i];
                assert(s[k] == w0[i]);
            }
        }
    }
}


proof fn lemma_without_absent_key(s: Seq<HistoryEntryView>, key: Seq<char>)
    requires
        forall|i: int| 0 <= i < s.len() ==> #[trigger] s[i].source_key != key,
    ensures
        without_key(s, key) == s,
    decreases s.len(),
{
    if s.len() > 0 {
        lemma_without_absent_key(s.drop_last(), key);
        assert(s.drop_last().push(s.last()) =~= s);
    }
}

/// Recording a source the history does not hold puts it first, keeps every
/// other entry in order behind it, and drops only what passes the limit:
/// the history grows by one until it holds the limit.
pub proof fn law_record_new_source(s: Seq<HistoryEntryView>, e: HistoryEntryView)
    requires
        forall|i: int| 0 <= i < s.len() ==> #[trigger] s[i].source_key != e.source_key,
    ensures
        ({
            let r = record_spec(s, e);
            &&& r.len() == if s.len() + 1 <= HISTORY_LIMIT { s.len() + 1 } else { HISTORY_LIMIT as nat }
            &&& r[0] == e
            &&& forall|k: int| 1 <= k < r.len() ==> #[trigger] r[k] == s[k - 1]
        }),
{
    lemma_without_absent_key(s, e.source_key);
}


/// The history after recording `es` one after another onto `s`.
pub open spec fn record_all(s: Seq<HistoryEntryView>, es: Seq<HistoryEntryView>) -> Seq<HistoryEntryView>
    decreases es.len(),
{
    if es.len() == 0 {
        s
    } else {
        record_spec(record_all(s, es.drop_last()), es.last())
    }
}

/// Recording sources with distinct keys one after another into an empty
/// history keeps the last fifty of them, newest first.
pub proof fn law_record_distinct_sources(es: Seq<HistoryEntryView>)
    requires
        forall|i: int, j: int| 0 <= i < j < es.len() ==> #[trigger] es[i].source_key != #[trigger] es[j].source_key,
    ensures
        ({
            let r = record_all(Seq::empty(), es);
            &&& r.len() == if es.len() <= HISTORY_LIMIT { es.len() } else { HISTORY_LIMIT as nat }
            &&& forall|k: int| 0 <= k < r.len() ==> #[trigger] r[k] == es[es.len() - 1 - k]
        }),
    decreases es.len(),
{
    if es.len() > 0 {
        let init = es.drop_last();
        let e = es.last();
        assert forall|i: int, j: int| 0 <= i < j < init.len() implies #[trigger] init[i].source_key
            != #[trigger] init[j].source_key by {
            assert(init[i] == es[i] && init[j] == es[j]);
        }
        law_record_distinct_sources(init);
        let h = record_all(Seq::empty(), init);
        assert forall|i: int| 0 <= i < h.len() implies #[trigger] h[i].source_key != e.source_key by {
            assert(h[i] == init[init.len() - 1 - i]);
            assert(init[init.len() - 1 - i] == es[es.len() - 2 - i]);
            assert(es[es.len() - 2 - i].source_key != es[es.len() - 1].source_key);
        }
        law_record_new_source(h, e);
        let r = record_all(Seq::empty(), es);
        assert(r == record_spec(h, e));
        assert forall|k: int| 0 <= k < r.len() implies #[trigger] r[k] == es[es.len() - 1 - k] by {
            if k > 0 {
                assert(r[k] == h[k - 1]);
                assert(h[k - 1] == init[init.len() - 1 - (k - 1)]);
            }
        }
    }
}

} // verus!
