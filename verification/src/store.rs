//! The analysis store: an in-memory registry mapping each user identifier to
//! the ordered, append-only history of the analyses produced for that user,
//! with lookup of a single analysis by its identifier across all users.
//!
//! The store is a value with `&mut` methods; the process wraps it in its own
//! mutual exclusion, held for the duration of one operation.

use vstd::prelude::*;
use crate::record::{AnalysisRecord, RecordView, not_found_record, not_found_text};

verus! {

/// The abstract content of a store: each user's history, newest last.
pub type StoreModel = Map<Seq<char>, Seq<RecordView>>;

/// A user's history in the model: the mapped sequence, or empty for a user
/// never recorded. The two are observably equivalent.
pub open spec fn history_of(m: StoreModel, user_id: Seq<char>) -> Seq<RecordView> {
    if m.contains_key(user_id) {
        m[user_id]
    } else {
        Seq::empty()
    }
}

/// The model after recording one analysis under a user.
pub open spec fn recorded(m: StoreModel, user_id: Seq<char>, a: RecordView) -> StoreModel {
    m.insert(user_id, history_of(m, user_id).push(a))
}

/// Some history in the model holds a record with this analysis identifier.
pub open spec fn has_analysis(m: StoreModel, analysis_id: Seq<char>) -> bool {
    exists|u: Seq<char>, j: int|
        m.contains_key(u) && 0 <= j < m[u].len() && m[u][j].analysis_id == analysis_id
}

/// The record view appears in some history of the model.
pub open spec fn record_in(m: StoreModel, rv: RecordView) -> bool {
    exists|u: Seq<char>| m.contains_key(u) && m[u].contains(rv)
}

/// The association list read as a map, later entries winning (keys are kept
/// unique, so no entry shadows another).
pub open spec fn entries_to_map(s: Seq<(Seq<char>, Seq<RecordView>)>) -> StoreModel
    decreases s.len(),
{
    if s.len() == 0 {
        Map::empty()
    } else {
        entries_to_map(s.drop_last()).insert(s.last().0, s.last().1)
    }
}

/// No two entries share a key.
pub open spec fn unique_keys(s: Seq<(Seq<char>, Seq<RecordView>)>) -> bool {
    forall|i: int, j: int| 0 <= i < j < s.len() ==> s[i].0 != s[j].0
}

/// A key is in the map exactly when some entry carries it.
proof fn lemma_contains(s: Seq<(Seq<char>, Seq<RecordView>)>, u: Seq<char>)
    ensures
        entries_to_map(s).contains_key(u) <==> (exists|i: int| 0 <= i < s.len() && s[i].0 == u),
    decreases s.len(),
{
    if s.len() > 0 {
        lemma_contains(s.drop_last(), u);
        if entries_to_map(s).contains_key(u) {
            if u == s.last().0 {
                assert(s[s.len() - 1].0 == u);
            } else {
                let i = choose|i: int| 0 <= i < s.drop_last().len() && s.drop_last()[i].0 == u;
                assert(s[i].0 == u);
            }
        }
        if exists|i: int| 0 <= i < s.len() && s[i].0 == u {
            let i = choose|i: int| 0 <= i < s.len() && s[i].0 == u;
            if i < s.len() - 1 {
                assert(s.drop_last()[i].0 == u);
            }
        }
    }
}

/// With unique keys, the map sends each entry's key to that entry's value.
proof fn lemma_value_at(s: Seq<(Seq<char>, Seq<RecordView>)>, i: int)
    requires
        unique_keys(s),
        0 <= i < s.len(),
    ensures
        entries_to_map(s).contains_key(s[i].0),
        entries_to_map(s)[s[i].0] == s[i].1,
    decreases s.len(),
{
    if i < s.len() - 1 {
        assert(unique_keys(s.drop_last()));
        lemma_value_at(s.drop_last(), i);
        assert(s[i].0 != s.last().0);
    }
}

/// Replacing one entry's value rewrites exactly that key in the map.
proof fn lemma_map_update(s: Seq<(Seq<char>, Seq<RecordView>)>, i: int, v: Seq<RecordView>)
    requires
        unique_keys(s),
        0 <= i < s.len(),
    ensures
        entries_to_map(s.update(i, (s[i].0, v))) == entries_to_map(s).insert(s[i].0, v),
    decreases s.len(),
{
    let s2 = s.update(i, (s[i].0, v));
    if i == s.len() - 1 {
        assert(s2.drop_last() =~= s.drop_last());
        assert(entries_to_map(s2) =~= entries_to_map(s).insert(s[i].0, v));
    } else {
        assert(s2.drop_last() =~= s.drop_last().update(i, (s[i].0, v)));
        assert(unique_keys(s.drop_last()));
        lemma_map_update(s.drop_last(), i, v);
        assert(s[i].0 != s.last().0);
        assert(entries_to_map(s2) =~= entries_to_map(s).insert(s[i].0, v));
    }
}

/// Appending an entry inserts its key in the map.
proof fn lemma_map_push(s: Seq<(Seq<char>, Seq<RecordView>)>, k: Seq<char>, v: Seq<RecordView>)
    ensures
        entries_to_map(s.push((k, v))) == entries_to_map(s).insert(k, v),
{
    assert(s.push((k, v)).drop_last() =~= s);
}

/// The in-memory registry of analyses, keyed by user identifier. Entries keep
/// the order in which users first appeared; each history keeps insertion
/// order.
pub struct AnalysisStore {
    entries: Vec<(String, Vec<AnalysisRecord>)>,
}

impl View for AnalysisStore {
    type V = StoreModel;

    closed spec fn view(&self) -> StoreModel {
        entries_to_map(self.entries_view())
    }
}

impl AnalysisStore {
    /// The entries with their views taken, in store order.
    pub closed spec fn entries_view(&self) -> Seq<(Seq<char>, Seq<RecordView>)> {
        self.entries@.map_values(
            |e: (String, Vec<AnalysisRecord>)| (e.0@, e.1.deep_view()),
        )
    }

    /// Well-formed: no user identifier appears in two entries.
    pub closed spec fn wf(&self) -> bool {
        unique_keys(self.entries_view())
    }

    /// An empty store.
    pub fn new() -> (r: Self)
        ensures
            r.wf(),
            r@ == Map::<Seq<char>, Seq<RecordView>>::empty(),
    {
        let r = AnalysisStore { entries: Vec::new() };
        proof {
            assert(r.entries_view() =~= Seq::<(Seq<char>, Seq<RecordView>)>::empty());
        }
        r
    }

    /// Index of the entry carrying this key, if any.
    fn index_of(&self, key: &String) -> (r: Option<usize>)
        ensures
            match r {
                Some(i) => i < self.entries_view().len() && self.entries_view()[i as int].0
                    == key@,
                None => forall|k: int|
                    0 <= k < self.entries_view().len() ==> self.entries_view()[k].0 != key@,
            },
    {
        let n = self.entries.len();
        let mut i: usize = 0;
        while i < n
            invariant
                n == self.entries@.len(),
                i <= n,
                forall|k: int| 0 <= k < i ==> self.entries_view()[k].0 != key@,
            decreases n - i,
        {
            if self.entries[i].0 == *key {
                proof {
                    assert(self.entries_view()[i as int].0 == key@);
                }
                return Some(i);
            }
            i = i + 1;
        }
        None
    }

    /// Append an analysis to this user's history, creating the history if the
    /// user is new.
    pub fn record(&mut self, user_id: &str, analysis: AnalysisRecord)
        requires
            old(self).wf(),
        ensures
            final(self).wf(),
            final(self)@ == recorded(old(self)@, user_id@, analysis@),
    {
        let ghost s0 = self.entries_view();
        let ghost av = analysis@;
        let key = user_id.to_owned();
        match self.index_of(&key) {
            Some(i) => {
                let ghost old_recs = s0[i as int].1;
                proof {
                    lemma_value_at(s0, i as int);
                }
                let mut pair = self.entries.remove(i);
                pair.1.push(analysis);
                let ghost pairg = pair;
                self.entries.insert(i, pair);
                proof {
                    assert(self.entries@ =~= old(self).entries@.update(i as int, pairg));
                    assert(pairg.1.deep_view() =~= old_recs.push(av));
                    assert(self.entries_view() =~= s0.update(i as int, (user_id@, old_recs.push(
                        av,
                    ))));
                    lemma_map_update(s0, i as int, old_recs.push(av));
                    assert(final(self)@ =~= recorded(old(self)@, user_id@, av));
                    assert(final(self).wf()) by {
                        let sv = self.entries_view();
                        assert(forall|a: int, b: int| 0 <= a < b < sv.len() ==> sv[a].0 != sv[b].0);
                    }
                }
            },
            None => {
                let mut recs: Vec<AnalysisRecord> = Vec::new();
                recs.push(analysis);
                self.entries.push((key, recs));
                proof {
                    assert(recs.deep_view() =~= seq![av]);
                    assert(self.entries_view() =~= s0.push((user_id@, seq![av])));
                    lemma_map_push(s0, user_id@, seq![av]);
                    lemma_contains(s0, user_id@);
                    assert(history_of(old(self)@, user_id@).push(av) =~= seq![av]);
                    assert(final(self)@ =~= recorded(old(self)@, user_id@, av));
                }
            },
        }
    }

    /// A snapshot of this user's history in insertion order; empty when the
    /// user is unknown, never an error.
    pub fn history(&self, user_id: &str) -> (r: Vec<AnalysisRecord>)
        requires
            self.wf(),
        ensures
            r.deep_view() == history_of(self@, user_id@),
    {
        let ghost s0 = self.entries_view();
        let key = user_id.to_owned();
        match self.index_of(&key) {
            Some(i) => {
                proof {
                    lemma_value_at(s0, i as int);
                }
                let out = self.entries[i].1.clone();
                proof {
                    let ghost orig = self.entries@[i as int].1;
                    assert forall|j: int| 0 <= j < out@.len() implies out@[j]@ == orig@[j]@ by {
                        assert(cloned::<AnalysisRecord>(orig@[j], out@[j]));
                    }
                    assert(out.deep_view() =~= s0[i as int].1);
                }
                out
            },
            None => {
                let out: Vec<AnalysisRecord> = Vec::new();
                proof {
                    lemma_contains(s0, user_id@);
                    assert(out.deep_view() =~= Seq::<RecordView>::empty());
                }
                out
            },
        }
    }

    /// Scan all histories for the record carrying this analysis identifier.
    /// Returns a record whose identifier matches, or nothing when no history
    /// holds the identifier.
    pub fn find_by_id(&self, analysis_id: &str) -> (r: Option<AnalysisRecord>)
        requires
            self.wf(),
        ensures
            r is Some <==> has_analysis(self@, analysis_id@),
            match r {
                Some(rec) => rec@.analysis_id == analysis_id@ && record_in(self@, rec@),
                None => true,
            },
    {
        let ghost s0 = self.entries_view();
        let key = analysis_id.to_owned();
        let n = self.entries.len();
        let mut i: usize = 0;
        while i < n
            invariant
                self.wf(),
                s0 == self.entries_view(),
                key@ == analysis_id@,
                n == self.entries@.len(),
                i <= n,
                forall|a: int, b: int|
                    0 <= a < i && 0 <= b < s0[a].1.len() ==> s0[a].1[b].analysis_id != analysis_id@,
            decreases n - i,
        {
            let m = self.entries[i].1.len();
            let mut j: usize = 0;
            while j < m
                invariant
                    self.wf(),
                    s0 == self.entries_view(),
                    key@ == analysis_id@,
                    n == self.entries@.len(),
                    i < n,
                    m == self.entries@[i as int].1@.len(),
                    j <= m,
                    forall|b: int| 0 <= b < j ==> s0[i as int].1[b].analysis_id != analysis_id@,
                decreases m - j,
            {
                if self.entries[i].1[j].analysis_id == key {
                    let rec = self.entries[i].1[j].clone();
                    proof {
                        lemma_value_at(s0, i as int);
                        assert(rec@ == s0[i as int].1[j as int]);
                        assert(self@[s0[i as int].0].contains(rec@)) by {
                            assert(self@[s0[i as int].0][j as int] == rec@);
                        }
                        assert(record_in(self@, rec@));
                        assert(has_analysis(self@, analysis_id@));
                    }
                    return Some(rec);
                }
                j = j + 1;
            }
            i = i + 1;
        }
        proof {
            assert(!has_analysis(self@, analysis_id@)) by {
                assert forall|u: Seq<char>, j: int|
                    self@.contains_key(u) && 0 <= j < self@[u].len() implies self@[u][j].analysis_id
                    != analysis_id@ by {
                    lemma_contains(s0, u);
                    let k = choose|k: int| 0 <= k < s0.len() && s0[k].0 == u;
                    lemma_value_at(s0, k);
                }
            }
        }
        None
    }

    /// Look an analysis up by identifier; when none matches, substitute the
    /// sentinel record tagged with the queried identifier, rather than fail.
    pub fn analysis_for(&self, analysis_id: &str) -> (r: AnalysisRecord)
        requires
            self.wf(),
        ensures
            r.analysis_id@ == analysis_id@,
            has_analysis(self@, analysis_id@) ==> record_in(self@, r@),
            !has_analysis(self@, analysis_id@) ==> r.score == 0 && r.improvements.deep_view()
                == seq![not_found_text()],
    {
        match self.find_by_id(analysis_id) {
            Some(rec) => rec,
            None => not_found_record(analysis_id),
        }
    }
}

/// Recording then reading back: after an analysis is appended under a user,
/// that user's history is the old one with the analysis appended, so its last
/// element is exactly that analysis.
pub proof fn lemma_record_round_trip(m: StoreModel, user_id: Seq<char>, a: RecordView)
    ensures
        history_of(recorded(m, user_id, a), user_id) == history_of(m, user_id).push(a),
        history_of(recorded(m, user_id, a), user_id).last() == a,
{
}

/// Store isolation: recording under one user leaves every other user's
/// history exactly as it was.
pub proof fn lemma_record_isolation(
    m: StoreModel,
    user_id: Seq<char>,
    other: Seq<char>,
    a: RecordView,
)
    requires
        user_id != other,
    ensures
        history_of(recorded(m, user_id, a), other) == history_of(m, other),
{
}

/// An empty store has no analysis to find, whatever the identifier.
pub proof fn lemma_empty_has_none(analysis_id: Seq<char>)
    ensures
        !has_analysis(Map::empty(), analysis_id),
{
}

} // verus!
