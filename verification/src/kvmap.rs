//! The flat store's row shape: a persisted mapping from string key to string
//! value, modelled in memory as a list of rows with pairwise distinct keys.

use vstd::prelude::*;

use crate::strutil::str_eq;

verus! {

/// Spec-level contents of a row list; on a repeated key the later row wins,
/// matching upsert order.
pub open spec fn map_of(rows: Seq<(String, String)>) -> Map<Seq<char>, Seq<char>>
    decreases rows.len(),
{
    if rows.len() == 0 {
        Map::empty()
    } else {
        map_of(rows.drop_last()).insert(rows.last().0@, rows.last().1@)
    }
}

proof fn lemma_map_of_contains(rows: Seq<(String, String)>, k: Seq<char>)
    ensures
        map_of(rows).contains_key(k) <==> exists|i: int| 0 <= i < rows.len() && rows[i].0@ == k,
    decreases rows.len(),
{
    if rows.len() > 0 {
        lemma_map_of_contains(rows.drop_last(), k);
        if rows.last().0@ == k {
            assert(rows[rows.len() - 1].0@ == k);
        } else if map_of(rows).contains_key(k) {
            let i = choose|i: int| 0 <= i < rows.drop_last().len() && rows.drop_last()[i].0@ == k;
            assert(rows[i].0@ == k);
        } else {
            assert forall|i: int| 0 <= i < rows.len() implies rows[i].0@ != k by {
                if i < rows.len() - 1 {
                    assert(rows.drop_last()[i].0@ == rows[i].0@);
                }
            }
        }
    }
}

proof fn lemma_map_of_at(rows: Seq<(String, String)>, i: int)
    requires
        0 <= i < rows.len(),
        forall|a: int, b: int| 0 <= a < b < rows.len() ==> rows[a].0@ != rows[b].0@,
    ensures
        map_of(rows).contains_key(rows[i].0@),
        map_of(rows)[rows[i].0@] == rows[i].1@,
    decreases rows.len(),
{
    if i == rows.len() - 1 {
    } else {
        assert(rows.drop_last()[i] == rows[i]);
        lemma_map_of_at(rows.drop_last(), i);
        assert(rows[i].0@ != rows[rows.len() - 1].0@);
    }
}

proof fn lemma_map_of_update(rows: Seq<(String, String)>, i: int, p: (String, String))
    requires
        0 <= i < rows.len(),
        rows[i].0@ == p.0@,
        forall|a: int, b: int| 0 <= a < b < rows.len() ==> rows[a].0@ != rows[b].0@,
    ensures
        map_of(rows.update(i, p)) =~= map_of(rows).insert(p.0@, p.1@),
    decreases rows.len(),
{
    let updated = rows.update(i, p);
    if i == rows.len() - 1 {
        assert(updated.drop_last() =~= rows.drop_last());
        assert(updated.last() == p);
    } else {
        assert(updated.drop_last() =~= rows.drop_last().update(i, p));
        assert(rows.drop_last()[i] == rows[i]);
        lemma_map_of_update(rows.drop_last(), i, p);
        assert(updated.last() == rows.last());
        assert(rows[i].0@ != rows[rows.len() - 1].0@);
    }
}

/// One logical table of `(key, value)` rows with unique keys; the in-memory
/// form of the persisted flat store that the serialization pipeline reads
/// from and writes into.
pub struct KvMap {
    rows: Vec<(String, String)>,
}

impl View for KvMap {
    type V = Map<Seq<char>, Seq<char>>;

    closed spec fn view(&self) -> Map<Seq<char>, Seq<char>> {
        map_of(self.rows@)
    }
}

impl KvMap {
    /// Keys of distinct rows differ.
    pub closed spec fn wf(&self) -> bool {
        forall|a: int, b: int|
            0 <= a < b < self.rows@.len() ==> self.rows@[a].0@ != self.rows@[b].0@
    }

    /// The rows in storage order, for callers that walk the table.
    pub closed spec fn spec_rows(&self) -> Seq<(String, String)> {
        self.rows@
    }

    /// An empty table.
    pub fn new() -> (r: KvMap)
        ensures
            r.wf(),
            r@ == Map::<Seq<char>, Seq<char>>::empty(),
            r.spec_rows().len() == 0,
    {
        KvMap { rows: Vec::new() }
    }

    /// Looks a key up.
    pub fn get<'a>(&'a self, key: &str) -> (r: Option<&'a String>)
        requires
            self.wf(),
        ensures
            match r {
                Some(v) => self@.contains_key(key@) && v@ == self@[key@],
                None => !self@.contains_key(key@),
            },
    {
        let n: usize = self.rows.len();
        let mut i: usize = 0;
        while i < n
            invariant
                self.wf(),
                n == self.rows@.len(),
                i <= n,
                forall|j: int| 0 <= j < i ==> self.rows@[j].0@ != key@,
            decreases n - i,
        {
            if str_eq(self.rows[i].0.as_str(), key) {
                proof {
                    lemma_map_of_at(self.rows@, i as int);
                }
                return Some(&self.rows[i].1);
            }
            i = i + 1;
        }
        proof {
            lemma_map_of_contains(self.rows@, key@);
        }
        None
    }

    /// Inserts a row, replacing the value of an existing key.
    pub fn insert(&mut self, key: String, value: String)
        requires
            old(self).wf(),
        ensures
            final(self).wf(),
            final(self)@ == old(self)@.insert(key@, value@),
    {
        let n: usize = self.rows.len();
        let mut i: usize = 0;
        while i < n
            invariant
                self.wf(),
                *self == *old(self),
                n == self.rows@.len(),
                i <= n,
                forall|j: int| 0 <= j < i ==> self.rows@[j].0@ != key@,
            decreases n - i,
        {
            if str_eq(self.rows[i].0.as_str(), key.as_str()) {
                proof {
                    lemma_map_of_update(self.rows@, i as int, (key, value));
                }
                self.rows[i] = (key, value);
                assert(final(self)@ =~= old(self)@.insert(key@, value@));
                return;
            }
            i = i + 1;
        }
        proof {
            let pushed = self.rows@.push((key, value));
            assert(pushed.drop_last() =~= self.rows@);
        }
        self.rows.push((key, value));
    }

    /// Upserts every row of `other` into this table, as one batch write.
    pub fn upsert_all(&mut self, other: &KvMap)
        requires
            old(self).wf(),
            other.wf(),
        ensures
            final(self).wf(),
            final(self)@ == old(self)@.union_prefer_right(other@),
    {
        let n: usize = other.rows.len();
        let mut i: usize = 0;
        while i < n
            invariant
                self.wf(),
                other.wf(),
                n == other.rows@.len(),
                i <= n,
                self@ == old(self)@.union_prefer_right(map_of(other.rows@.take(i as int))),
            decreases n - i,
        {
            let key: String = other.rows[i].0.clone();
            let value: String = other.rows[i].1.clone();
            proof {
                let taken = other.rows@.take(i as int + 1);
                assert(taken.drop_last() =~= other.rows@.take(i as int));
                assert(taken.last() == other.rows@[i as int]);
                assert(old(self)@.union_prefer_right(
                    map_of(other.rows@.take(i as int)).insert(key@, value@),
                ) =~= old(self)@.union_prefer_right(map_of(other.rows@.take(i as int))).insert(
                    key@,
                    value@,
                ));
            }
            self.insert(key, value);
            i = i + 1;
        }
        proof {
            assert(other.rows@.take(n as int) =~= other.rows@);
        }
    }

    /// How many rows the table holds.
    pub fn row_count(&self) -> (n: usize)
        ensures
            n == self.spec_rows().len(),
    {
        self.rows.len()
    }

    /// The row at a storage position, for callers that walk the table.
    pub fn row_at<'a>(&'a self, i: usize) -> (kv: (&'a String, &'a String))
        requires
            i < self.spec_rows().len(),
        ensures
            kv.0@ == self.spec_rows()[i as int].0@,
            kv.1@ == self.spec_rows()[i as int].1@,
    {
        (&self.rows[i].0, &self.rows[i].1)
    }
}

} // verus!
