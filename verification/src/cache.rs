//! The in-process directory cache: a mapping from circle identifier to
//! circle record, abstracted as a `Map<Seq<char>, CircleView>`.

use vstd::prelude::*;

verus! {

use crate::schema::Circle;
use crate::schema::CircleView;
use crate::strutil::str_eq;

/// No two records in the sequence share an identifier.
pub open spec fn ids_unique(s: Seq<Circle>) -> bool {
    forall|i: int, j: int|
        0 <= i < s.len() && 0 <= j < s.len() && i != j ==> s[i].id@ != s[j].id@
}

/// Some record in the sequence carries the identifier.
pub open spec fn has_id(s: Seq<Circle>, id: Seq<char>) -> bool {
    exists|i: int| 0 <= i < s.len() && s[i].id@ == id
}

/// An index of a record carrying the identifier (unique when `ids_unique`).
pub open spec fn index_of_id(s: Seq<Circle>, id: Seq<char>) -> int {
    choose|i: int| 0 <= i < s.len() && s[i].id@ == id
}

/// The mapping that a sequence of records with unique identifiers stands for.
pub open spec fn directory_map(s: Seq<Circle>) -> Map<Seq<char>, CircleView> {
    Map::new(|id: Seq<char>| has_id(s, id), |id: Seq<char>| s[index_of_id(s, id)]@)
}

/// The mapping that a freshly fetched snapshot stands for: records are merged
/// in order, so of two records with the same identifier the later one wins.
pub open spec fn snapshot_map(s: Seq<Circle>) -> Map<Seq<char>, CircleView>
    decreases s.len(),
{
    if s.len() == 0 {
        Map::empty()
    } else {
        snapshot_map(s.drop_last()).insert(s.last().id@, s.last()@)
    }
}

/// With unique identifiers, the chosen index of a record's identifier is the
/// record's own index.
proof fn lemma_index_of_id(s: Seq<Circle>, j: int)
    requires
        ids_unique(s),
        0 <= j < s.len(),
    ensures
        has_id(s, s[j].id@),
        index_of_id(s, s[j].id@) == j,
{
    let id = s[j].id@;
    assert(has_id(s, id));
    let i = index_of_id(s, id);
    assert(0 <= i < s.len() && s[i].id@ == id);
    if i != j {
        assert(s[i].id@ != s[j].id@);
    }
}

/// Overwriting the record that already carries the identifier inserts into
/// the abstract map.
proof fn lemma_update_map(s: Seq<Circle>, i: int, c: Circle)
    requires
        ids_unique(s),
        0 <= i < s.len(),
        s[i].id@ == c.id@,
    ensures
        ids_unique(s.update(i, c)),
        directory_map(s.update(i, c)) == directory_map(s).insert(c.id@, c@),
{
    let t = s.update(i, c);
    assert forall|p: int, q: int|
        0 <= p < t.len() && 0 <= q < t.len() && p != q implies t[p].id@ != t[q].id@ by {
        if p == i {
            assert(t[q].id@ == s[q].id@ && s[q].id@ != s[i].id@);
        } else if q == i {
            assert(t[p].id@ == s[p].id@ && s[p].id@ != s[i].id@);
        }
    }
    let lhs = directory_map(t);
    let rhs = directory_map(s).insert(c.id@, c@);
    assert forall|k: Seq<char>| lhs.dom().contains(k) implies rhs.dom().contains(k) by {
        let w = choose|w: int| 0 <= w < t.len() && t[w].id@ == k;
        if w != i {
            assert(s[w].id@ == k);
        }
    }
    assert forall|k: Seq<char>| rhs.dom().contains(k) implies lhs.dom().contains(k) by {
        if k == c.id@ {
            assert(t[i].id@ == k);
        } else {
            let w = choose|w: int| 0 <= w < s.len() && s[w].id@ == k;
            assert(t[w].id@ == k);
        }
    }
    assert forall|k: Seq<char>| lhs.dom().contains(k) implies lhs[k] == rhs[k] by {
        if k == c.id@ {
            lemma_index_of_id(t, i);
        } else {
            let w = index_of_id(t, k);
            assert(0 <= w < t.len() && t[w].id@ == k);
            assert(w != i);
            lemma_index_of_id(s, w);
        }
    }
    assert(lhs =~= rhs);
}

/// Appending a record whose identifier is absent inserts into the abstract
/// map.
proof fn lemma_push_map(s: Seq<Circle>, c: Circle)
    requires
        ids_unique(s),
        !has_id(s, c.id@),
    ensures
        ids_unique(s.push(c)),
        directory_map(s.push(c)) == directory_map(s).insert(c.id@, c@),
{
    let t = s.push(c);
    let n = s.len() as int;
    assert forall|p: int, q: int|
        0 <= p < t.len() && 0 <= q < t.len() && p != q implies t[p].id@ != t[q].id@ by {
        if p == n {
            assert(t[q].id@ == s[q].id@);
            assert(!(s[q].id@ == c.id@));
        } else if q == n {
            assert(t[p].id@ == s[p].id@);
            assert(!(s[p].id@ == c.id@));
        }
    }
    let lhs = directory_map(t);
    let rhs = directory_map(s).insert(c.id@, c@);
    assert forall|k: Seq<char>| lhs.dom().contains(k) implies rhs.dom().contains(k) by {
        let w = choose|w: int| 0 <= w < t.len() && t[w].id@ == k;
        if w != n {
            assert(s[w].id@ == k);
        }
    }
    assert forall|k: Seq<char>| rhs.dom().contains(k) implies lhs.dom().contains(k) by {
        if k == c.id@ {
            assert(t[n].id@ == k);
        } else {
            let w = choose|w: int| 0 <= w < s.len() && s[w].id@ == k;
            assert(t[w].id@ == k);
        }
    }
    assert forall|k: Seq<char>| lhs.dom().contains(k) implies lhs[k] == rhs[k] by {
        if k == c.id@ {
            lemma_index_of_id(t, n);
        } else {
            let w = index_of_id(t, k);
            assert(0 <= w < t.len() && t[w].id@ == k);
            assert(w != n);
            lemma_index_of_id(s, w);
        }
    }
    assert(lhs =~= rhs);
}

/// Deleting the record at an index removes its identifier from the abstract
/// map.
proof fn lemma_remove_map(s: Seq<Circle>, i: int)
    requires
        ids_unique(s),
        0 <= i < s.len(),
    ensures
        ids_unique(s.remove(i)),
        directory_map(s.remove(i)) == directory_map(s).remove(s[i].id@),
{
    let t = s.remove(i);
    assert forall|p: int, q: int|
        0 <= p < t.len() && 0 <= q < t.len() && p != q implies t[p].id@ != t[q].id@ by {
        let sp: int = if p < i { p } else { p + 1 };
        let sq: int = if q < i { q } else { q + 1 };
        assert(t[p].id@ == s[sp].id@);
        assert(t[q].id@ == s[sq].id@);
    }
    let lhs = directory_map(t);
    let rhs = directory_map(s).remove(s[i].id@);
    assert forall|k: Seq<char>| lhs.dom().contains(k) implies rhs.dom().contains(k) by {
        let w = choose|w: int| 0 <= w < t.len() && t[w].id@ == k;
        let sw: int = if w < i { w } else { w + 1 };
        assert(s[sw].id@ == k);
        assert(sw != i);
        assert(k != s[i].id@);
    }
    assert forall|k: Seq<char>| rhs.dom().contains(k) implies lhs.dom().contains(k) by {
        let w = choose|w: int| 0 <= w < s.len() && s[w].id@ == k;
        assert(w != i);
        let tw: int = if w < i { w } else { w - 1 };
        assert(t[tw].id@ == k);
    }
    assert forall|k: Seq<char>| lhs.dom().contains(k) implies lhs[k] == rhs[k] by {
        let w = index_of_id(t, k);
        assert(0 <= w < t.len() && t[w].id@ == k);
        let sw: int = if w < i { w } else { w + 1 };
        assert(t[w] == s[sw]);
        lemma_index_of_id(s, sw);
    }
    assert(lhs =~= rhs);
}

/// The in-memory index of circle records, keyed by circle identifier.
///
/// Its abstract value is the mapping from each cached identifier to the
/// cached record.
pub struct DirectoryCache {
    entries: Vec<Circle>,
}

impl View for DirectoryCache {
    type V = Map<Seq<char>, CircleView>;

    closed spec fn view(&self) -> Map<Seq<char>, CircleView> {
        directory_map(self.entries@)
    }
}

impl DirectoryCache {
    /// The cache's internal invariant: identifiers are unique.
    pub closed spec fn wf(&self) -> bool {
        ids_unique(self.entries@)
    }

    /// An empty cache.
    pub fn new() -> (c: DirectoryCache)
        ensures
            c.wf(),
            c@ == Map::<Seq<char>, CircleView>::empty(),
    {
        let c = DirectoryCache { entries: Vec::new() };
        proof {
            assert(c@ =~= Map::<Seq<char>, CircleView>::empty());
        }
        c
    }

    /// The index of the record carrying the identifier, if one is cached.
    fn find(&self, id: &str) -> (r: Option<usize>)
        requires
            self.wf(),
        ensures
            match r {
                Some(i) => i < self.entries@.len() && self.entries@[i as int].id@ == id@,
                None => !has_id(self.entries@, id@),
            },
    {
        let mut i: usize = 0;
        while i < self.entries.len()
            invariant
                i <= self.entries@.len(),
                forall|j: int| 0 <= j < i ==> self.entries@[j].id@ != id@,
            decreases self.entries@.len() - i,
        {
            if str_eq(self.entries[i].id.as_str(), id) {
                return Some(i);
            }
            i += 1;
        }
        None
    }

    /// Looks up a record by identifier and returns a copy of it, or nothing
    /// when the identifier is absent. Never fails.
    pub fn get(&self, id: &str) -> (r: Option<Circle>)
        requires
            self.wf(),
        ensures
            match r {
                Some(c) => self@.contains_key(id@) && c@ == self@[id@] && c@.id == id@,
                None => !self@.contains_key(id@),
            },
    {
        match self.find(id) {
            Some(i) => {
                proof {
                    lemma_index_of_id(self.entries@, i as int);
                }
                Some(self.entries[i].duplicate())
            },
            None => None,
        }
    }

    /// Inserts the record, or overwrites the entry already keyed by the
    /// record's identifier.
    pub fn upsert(&mut self, c: Circle)
        requires
            old(self).wf(),
        ensures
            final(self).wf(),
            final(self)@ == old(self)@.insert(c.id@, c@),
    {
        let ghost s = self.entries@;
        match self.find(c.id.as_str()) {
            Some(i) => {
                proof {
                    lemma_update_map(s, i as int, c);
                }
                self.entries.set(i, c);
            },
            None => {
                proof {
                    lemma_push_map(s, c);
                }
                self.entries.push(c);
            },
        }
    }

    /// Deletes the entry keyed by the identifier; removing an absent
    /// identifier is a no-op, not an error.
    pub fn remove(&mut self, id: &str)
        requires
            old(self).wf(),
        ensures
            final(self).wf(),
            final(self)@ == old(self)@.remove(id@),
    {
        let ghost s = self.entries@;
        match self.find(id) {
            Some(i) => {
                proof {
                    lemma_remove_map(s, i as int);
                }
                self.entries.remove(i);
            },
            None => {
                proof {
                    assert(!self@.contains_key(id@));
                    assert(self@ =~= self@.remove(id@));
                }
            },
        }
    }

    /// Merges a freshly fetched full snapshot: every record is inserted or
    /// overwritten by identifier. Entries whose identifier is absent from the
    /// snapshot are retained, not deleted — staleness over data loss.
    /// Returns the number of records merged.
    pub fn merge_snapshot(&mut self, records: &Vec<Circle>) -> (count: usize)
        requires
            old(self).wf(),
        ensures
            final(self).wf(),
            final(self)@ == old(self)@.union_prefer_right(snapshot_map(records@)),
            count == records@.len(),
    {
        let ghost m0 = self@;
        let mut i: usize = 0;
        proof {
            assert(records@.take(0) =~= Seq::<Circle>::empty());
            assert(snapshot_map(Seq::<Circle>::empty()) == Map::<Seq<char>, CircleView>::empty());
            assert(self@ =~= m0.union_prefer_right(Map::empty()));
        }
        while i < records.len()
            invariant
                i <= records@.len(),
                self.wf(),
                self@ == m0.union_prefer_right(snapshot_map(records@.take(i as int))),
            decreases records@.len() - i,
        {
            let c = records[i].duplicate();
            proof {
                lemma_snapshot_step(m0, records@, i as int);
                assert(c.id@ == records@[i as int].id@);
            }
            self.upsert(c);
            i += 1;
        }
        proof {
            assert(records@.take(records@.len() as int) =~= records@);
        }
        records.len()
    }

    /// A point-in-time copy of every cached record, for iteration: each
    /// listed record is cached under its identifier, every cached identifier
    /// is listed, and no identifier is listed twice.
    pub fn list(&self) -> (r: Vec<Circle>)
        requires
            self.wf(),
        ensures
            ids_unique(r@),
            forall|j: int| 0 <= j < r@.len()
                ==> self@.contains_key(#[trigger] r@[j].id@) && r@[j]@ == self@[r@[j].id@],
            forall|k: Seq<char>| self@.contains_key(k) ==> has_id(r@, k),
    {
        let mut r: Vec<Circle> = Vec::new();
        let mut i: usize = 0;
        while i < self.entries.len()
            invariant
                i <= self.entries@.len(),
                r@.len() == i,
                forall|j: int| 0 <= j < i ==> #[trigger] r@[j]@ == self.entries@[j]@,
            decreases self.entries@.len() - i,
        {
            r.push(self.entries[i].duplicate());
            i += 1;
        }
        proof {
            assert forall|j: int| 0 <= j < r@.len()
                implies self@.contains_key(#[trigger] r@[j].id@) && r@[j]@ == self@[r@[j].id@] by {
                assert(r@[j]@ == self.entries@[j]@);
                assert(r@[j].id@ == r@[j]@.id);
                assert(self.entries@[j].id@ == self.entries@[j]@.id);
                lemma_index_of_id(self.entries@, j);
            }
            assert forall|p: int, q: int|
                0 <= p < r@.len() && 0 <= q < r@.len() && p != q
                implies r@[p].id@ != r@[q].id@ by {
                assert(r@[p]@ == self.entries@[p]@);
                assert(r@[q]@ == self.entries@[q]@);
            }
            assert forall|k: Seq<char>| self@.contains_key(k) implies has_id(r@, k) by {
                let w = choose|w: int| 0 <= w < self.entries@.len() && self.entries@[w].id@ == k;
                assert(r@[w]@ == self.entries@[w]@);
                assert(r@[w].id@ == k);
            }
        }
        r
    }
}

/// One merge step: merging one more record of the snapshot is the same as
/// inserting that record into the merge of the records before it.
proof fn lemma_snapshot_step(m: Map<Seq<char>, CircleView>, s: Seq<Circle>, i: int)
    requires
        0 <= i < s.len(),
    ensures
        m.union_prefer_right(snapshot_map(s.take(i))).insert(s[i].id@, s[i]@)
            == m.union_prefer_right(snapshot_map(s.take(i + 1))),
{
    assert(s.take(i + 1).drop_last() =~= s.take(i));
    assert(s.take(i + 1).last() == s[i]);
    assert(snapshot_map(s.take(i + 1)) == snapshot_map(s.take(i)).insert(s[i].id@, s[i]@));
    assert(m.union_prefer_right(snapshot_map(s.take(i))).insert(s[i].id@, s[i]@)
        =~= m.union_prefer_right(snapshot_map(s.take(i)).insert(s[i].id@, s[i]@)));
}

/// Upserting a record twice with the same record leaves the directory exactly
/// as a single upsert leaves it, and the record is then found under its
/// identifier.
pub proof fn lemma_upsert_idempotent(m: Map<Seq<char>, CircleView>, c: CircleView)
    ensures
        m.insert(c.id, c).insert(c.id, c) == m.insert(c.id, c),
        m.insert(c.id, c)[c.id] == c,
{
    assert(m.insert(c.id, c).insert(c.id, c) =~= m.insert(c.id, c));
}

/// Merging the same snapshot twice leaves the directory exactly as one
/// merge leaves it: a concurrent refresh that fetched the same upstream
/// state is redundant work, not corruption.
pub proof fn lemma_merge_idempotent(m: Map<Seq<char>, CircleView>, records: Seq<Circle>)
    ensures
        m.union_prefer_right(snapshot_map(records)).union_prefer_right(snapshot_map(records))
            == m.union_prefer_right(snapshot_map(records)),
{
    assert(m.union_prefer_right(snapshot_map(records)).union_prefer_right(snapshot_map(records))
        =~= m.union_prefer_right(snapshot_map(records)));
}

/// Staleness over loss: a merge keeps every key the cache already holds; a
/// key named by the snapshot takes the snapshot's record, and a key absent
/// from the snapshot keeps its old record.
pub proof fn lemma_merge_staleness(
    m: Map<Seq<char>, CircleView>,
    records: Seq<Circle>,
    k: Seq<char>,
)
    ensures
        m.union_prefer_right(snapshot_map(records)).contains_key(k)
            <==> m.contains_key(k) || snapshot_map(records).contains_key(k),
        snapshot_map(records).contains_key(k)
            ==> m.union_prefer_right(snapshot_map(records))[k] == snapshot_map(records)[k],
        m.contains_key(k) && !snapshot_map(records).contains_key(k)
            ==> m.union_prefer_right(snapshot_map(records))[k] == m[k],
{
}

} // verus!
