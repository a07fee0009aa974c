//! A mapping from column name to literal, kept in ascending lexicographic
//! key order.
//!
//! `INSERT` and `UPDATE` statements list each column exactly once and render
//! the columns in ascending lexicographic name order, whatever the order of
//! insertion. The mapping therefore keeps its entries sorted by key, with
//! one entry per key: inserting under a present key overwrites the previous
//! value — last write wins.

use vstd::prelude::*;
use crate::lex::lex_lt;
use crate::lex::lemma_lex_lt_asymmetric;
use crate::lex::lemma_lex_lt_connected;
use crate::lex::lemma_lex_lt_irreflexive;
use crate::lex::lemma_lex_lt_transitive;
use crate::lex::str_lt;
use crate::value::Value;

verus! {

/// A column/value mapping, sorted by column name.
#[derive(Debug)]
pub struct ValueMap {
    entries: Vec<(String, Value)>,
}

impl View for ValueMap {
    type V = Seq<(String, Value)>;

    closed spec fn view(&self) -> Seq<(String, Value)> {
        self.entries@
    }
}

/// Keys strictly ascending in lexicographic order — in particular, unique.
pub open spec fn entries_sorted(s: Seq<(String, Value)>) -> bool {
    forall|i: int, j: int| 0 <= i < j < s.len() ==> lex_lt(s[i].0@, s[j].0@)
}

/// Where an entry lands in an entry sequence: entries with smaller keys
/// stay in front, an entry with the same key is overwritten in place, and
/// the first entry with a key not below `k` has the new entry put before it.
pub open spec fn insert_sorted(s: Seq<(String, Value)>, k: String, v: Value) -> Seq<
    (String, Value),
>
    decreases s.len(),
{
    if s.len() == 0 {
        seq![(k, v)]
    } else if lex_lt(s[0].0@, k@) {
        seq![s[0]] + insert_sorted(s.drop_first(), k, v)
    } else if s[0].0@ == k@ {
        seq![(k, v)] + s.drop_first()
    } else {
        seq![(k, v)] + s
    }
}

/// Pins `insert_sorted` down at the position `i` that an ascending scan
/// finds: the first position whose key is not below `k`. When that key
/// equals `k` the entry is overwritten; otherwise the new entry stands
/// between the entries before and from `i` on.
pub proof fn lemma_insert_sorted_position(s: Seq<(String, Value)>, k: String, v: Value, i: int)
    requires
        0 <= i <= s.len(),
        forall|j: int| 0 <= j < i ==> lex_lt(s[j].0@, k@),
    ensures
        i < s.len() && s[i].0@ == k@ ==> insert_sorted(s, k, v) == s.update(i, (k, v)),
        (i == s.len() || (!lex_lt(s[i].0@, k@) && s[i].0@ != k@)) ==> insert_sorted(s, k, v)
            == s.take(i) + seq![(k, v)] + s.skip(i),
    decreases i,
{
    if i == 0 {
        if 0 < s.len() && s[0].0@ == k@ {
            lemma_lex_lt_irreflexive(k@);
            assert(insert_sorted(s, k, v) =~= s.update(0, (k, v)));
        }
        if s.len() == 0 || (!lex_lt(s[0].0@, k@) && s[0].0@ != k@) {
            assert(insert_sorted(s, k, v) =~= s.take(0) + seq![(k, v)] + s.skip(0));
        }
    } else {
        let d = s.drop_first();
        assert(lex_lt(s[0].0@, k@));
        assert(forall|j: int| 0 <= j < i - 1 ==> d[j] == s[j + 1] && lex_lt(d[j].0@, k@));
        lemma_insert_sorted_position(d, k, v, i - 1);
        if i < s.len() && s[i].0@ == k@ {
            assert(d[i - 1] == s[i]);
            assert(insert_sorted(d, k, v) == d.update(i - 1, (k, v)));
            assert(insert_sorted(s, k, v) =~= s.update(i, (k, v)));
        }
        if i == s.len() || (!lex_lt(s[i].0@, k@) && s[i].0@ != k@) {
            if i < s.len() {
                assert(d[i - 1] == s[i]);
            }
            assert(insert_sorted(d, k, v) == d.take(i - 1) + seq![(k, v)] + d.skip(i - 1));
            assert(insert_sorted(s, k, v) =~= s.take(i) + seq![(k, v)] + s.skip(i));
        }
    }
}

/// Inserting under two distinct column names gives the same entries in
/// either order: where a column stands in the rendered statement depends
/// only on its name, never on when it was inserted.
pub proof fn lemma_insert_sorted_commutes(
    s: Seq<(String, Value)>,
    k1: String,
    v1: Value,
    k2: String,
    v2: Value,
)
    requires
        k1@ != k2@,
    ensures
        insert_sorted(insert_sorted(s, k1, v1), k2, v2) == insert_sorted(
            insert_sorted(s, k2, v2),
            k1,
            v1,
        ),
    decreases s.len(),
{
    lemma_lex_lt_connected(k1@, k2@);
    lemma_lex_lt_irreflexive(k1@);
    lemma_lex_lt_irreflexive(k2@);
    if lex_lt(k1@, k2@) {
        lemma_lex_lt_asymmetric(k1@, k2@);
    } else {
        lemma_lex_lt_asymmetric(k2@, k1@);
    }
    if s.len() == 0 {
        assert(insert_sorted(s, k1, v1) == seq![(k1, v1)]);
        assert(insert_sorted(s, k2, v2) == seq![(k2, v2)]);
        assert(seq![(k1, v1)].drop_first() =~= Seq::<(String, Value)>::empty());
        assert(seq![(k2, v2)].drop_first() =~= Seq::<(String, Value)>::empty());
        assert(insert_sorted(Seq::<(String, Value)>::empty(), k1, v1) == seq![(k1, v1)]);
        assert(insert_sorted(Seq::<(String, Value)>::empty(), k2, v2) == seq![(k2, v2)]);
        if lex_lt(k1@, k2@) {
            assert(insert_sorted(seq![(k1, v1)], k2, v2) =~= seq![(k1, v1), (k2, v2)]);
            assert(insert_sorted(seq![(k2, v2)], k1, v1) =~= seq![(k1, v1), (k2, v2)]);
        } else {
            assert(insert_sorted(seq![(k1, v1)], k2, v2) =~= seq![(k2, v2), (k1, v1)]);
            assert(insert_sorted(seq![(k2, v2)], k1, v1) =~= seq![(k2, v2), (k1, v1)]);
        }
    } else {
        let h = s[0];
        let d = s.drop_first();
        assert(s =~= seq![h] + d);
        if h.0@ == k1@ {
            assert(insert_sorted(s, k1, v1) == seq![(k1, v1)] + d);
            assert((seq![(k1, v1)] + d)[0] == (k1, v1));
            assert((seq![(k1, v1)] + d).drop_first() =~= d);
            if lex_lt(k1@, k2@) {
                assert(insert_sorted(insert_sorted(s, k1, v1), k2, v2) == seq![(k1, v1)]
                    + insert_sorted(d, k2, v2));
                assert(insert_sorted(s, k2, v2) == seq![h] + insert_sorted(d, k2, v2));
                assert((seq![h] + insert_sorted(d, k2, v2))[0] == h);
                assert((seq![h] + insert_sorted(d, k2, v2)).drop_first() =~= insert_sorted(
                    d,
                    k2,
                    v2,
                ));
                assert(insert_sorted(insert_sorted(s, k2, v2), k1, v1) == seq![(k1, v1)]
                    + insert_sorted(d, k2, v2));
            } else {
                assert(lex_lt(k2@, k1@));
                assert(insert_sorted(insert_sorted(s, k1, v1), k2, v2) == seq![(k2, v2)] + (
                seq![(k1, v1)] + d));
                assert(insert_sorted(s, k2, v2) == seq![(k2, v2)] + s);
                assert((seq![(k2, v2)] + s)[0] == (k2, v2));
                assert((seq![(k2, v2)] + s).drop_first() =~= s);
                assert(insert_sorted(insert_sorted(s, k2, v2), k1, v1) == seq![(k2, v2)]
                    + insert_sorted(s, k1, v1));
                assert(seq![(k2, v2)] + (seq![(k1, v1)] + d) =~= seq![(k2, v2)] + insert_sorted(
                    s,
                    k1,
                    v1,
                ));
            }
        } else if h.0@ == k2@ {
            assert(insert_sorted(s, k2, v2) == seq![(k2, v2)] + d);
            assert((seq![(k2, v2)] + d)[0] == (k2, v2));
            assert((seq![(k2, v2)] + d).drop_first() =~= d);
            if lex_lt(k2@, k1@) {
                assert(insert_sorted(insert_sorted(s, k2, v2), k1, v1) == seq![(k2, v2)]
                    + insert_sorted(d, k1, v1));
                assert(insert_sorted(s, k1, v1) == seq![h] + insert_sorted(d, k1, v1));
                assert((seq![h] + insert_sorted(d, k1, v1))[0] == h);
                assert((seq![h] + insert_sorted(d, k1, v1)).drop_first() =~= insert_sorted(
                    d,
                    k1,
                    v1,
                ));
                assert(insert_sorted(insert_sorted(s, k1, v1), k2, v2) == seq![(k2, v2)]
                    + insert_sorted(d, k1, v1));
            } else {
                assert(lex_lt(k1@, k2@));
                assert(insert_sorted(insert_sorted(s, k2, v2), k1, v1) == seq![(k1, v1)] + (
                seq![(k2, v2)] + d));
                assert(insert_sorted(s, k1, v1) == seq![(k1, v1)] + s);
                assert((seq![(k1, v1)] + s)[0] == (k1, v1));
                assert((seq![(k1, v1)] + s).drop_first() =~= s);
                assert(insert_sorted(insert_sorted(s, k1, v1), k2, v2) == seq![(k1, v1)]
                    + insert_sorted(s, k2, v2));
                assert(seq![(k1, v1)] + (seq![(k2, v2)] + d) =~= seq![(k1, v1)] + insert_sorted(
                    s,
                    k2,
                    v2,
                ));
            }
        } else if lex_lt(h.0@, k1@) && lex_lt(h.0@, k2@) {
            lemma_insert_sorted_commutes(d, k1, v1, k2, v2);
            assert(insert_sorted(s, k1, v1) == seq![h] + insert_sorted(d, k1, v1));
            assert(insert_sorted(s, k2, v2) == seq![h] + insert_sorted(d, k2, v2));
            assert((seq![h] + insert_sorted(d, k1, v1))[0] == h);
            assert((seq![h] + insert_sorted(d, k1, v1)).drop_first() =~= insert_sorted(d, k1, v1));
            assert((seq![h] + insert_sorted(d, k2, v2))[0] == h);
            assert((seq![h] + insert_sorted(d, k2, v2)).drop_first() =~= insert_sorted(d, k2, v2));
            assert(insert_sorted(insert_sorted(s, k1, v1), k2, v2) == seq![h] + insert_sorted(
                insert_sorted(d, k1, v1),
                k2,
                v2,
            ));
            assert(insert_sorted(insert_sorted(s, k2, v2), k1, v1) == seq![h] + insert_sorted(
                insert_sorted(d, k2, v2),
                k1,
                v1,
            ));
        } else if lex_lt(h.0@, k2@) {
            lemma_lex_lt_connected(k1@, h.0@);
            assert(lex_lt(k1@, h.0@));
            lemma_lex_lt_transitive(k1@, h.0@, k2@);
            assert(insert_sorted(s, k1, v1) == seq![(k1, v1)] + s);
            assert((seq![(k1, v1)] + s)[0] == (k1, v1));
            assert((seq![(k1, v1)] + s).drop_first() =~= s);
            assert(insert_sorted(insert_sorted(s, k1, v1), k2, v2) == seq![(k1, v1)]
                + insert_sorted(s, k2, v2));
            assert(insert_sorted(s, k2, v2) == seq![h] + insert_sorted(d, k2, v2));
            assert((seq![h] + insert_sorted(d, k2, v2))[0] == h);
            assert(insert_sorted(insert_sorted(s, k2, v2), k1, v1) == seq![(k1, v1)] + (seq![h]
                + insert_sorted(d, k2, v2)));
        } else if lex_lt(h.0@, k1@) {
            lemma_lex_lt_connected(k2@, h.0@);
            assert(lex_lt(k2@, h.0@));
            lemma_lex_lt_transitive(k2@, h.0@, k1@);
            assert(insert_sorted(s, k2, v2) == seq![(k2, v2)] + s);
            assert((seq![(k2, v2)] + s)[0] == (k2, v2));
            assert((seq![(k2, v2)] + s).drop_first() =~= s);
            assert(insert_sorted(insert_sorted(s, k2, v2), k1, v1) == seq![(k2, v2)]
                + insert_sorted(s, k1, v1));
            assert(insert_sorted(s, k1, v1) == seq![h] + insert_sorted(d, k1, v1));
            assert((seq![h] + insert_sorted(d, k1, v1))[0] == h);
            assert(insert_sorted(insert_sorted(s, k1, v1), k2, v2) == seq![(k2, v2)] + (seq![h]
                + insert_sorted(d, k1, v1)));
        } else {
            lemma_lex_lt_connected(k1@, h.0@);
            lemma_lex_lt_connected(k2@, h.0@);
            assert(lex_lt(k1@, h.0@) && lex_lt(k2@, h.0@));
            assert(insert_sorted(s, k1, v1) == seq![(k1, v1)] + s);
            assert(insert_sorted(s, k2, v2) == seq![(k2, v2)] + s);
            assert((seq![(k1, v1)] + s)[0] == (k1, v1));
            assert((seq![(k1, v1)] + s).drop_first() =~= s);
            assert((seq![(k2, v2)] + s)[0] == (k2, v2));
            assert((seq![(k2, v2)] + s).drop_first() =~= s);
            if lex_lt(k1@, k2@) {
                assert(insert_sorted(insert_sorted(s, k1, v1), k2, v2) == seq![(k1, v1)]
                    + insert_sorted(s, k2, v2));
                assert(insert_sorted(insert_sorted(s, k2, v2), k1, v1) == seq![(k1, v1)]
                    + insert_sorted(s, k2, v2));
            } else {
                assert(insert_sorted(insert_sorted(s, k1, v1), k2, v2) == seq![(k2, v2)]
                    + insert_sorted(s, k1, v1));
                assert(insert_sorted(insert_sorted(s, k2, v2), k1, v1) == seq![(k2, v2)]
                    + insert_sorted(s, k1, v1));
            }
        }
    }
}

/// Inserting twice under the same column name keeps only the later value:
/// last write wins.
pub proof fn lemma_insert_sorted_overwrites(
    s: Seq<(String, Value)>,
    k1: String,
    v1: Value,
    k2: String,
    v2: Value,
)
    requires
        k1@ == k2@,
    ensures
        insert_sorted(insert_sorted(s, k1, v1), k2, v2) == insert_sorted(s, k2, v2),
    decreases s.len(),
{
    lemma_lex_lt_irreflexive(k1@);
    if s.len() == 0 {
        assert(insert_sorted(s, k1, v1) == seq![(k1, v1)]);
        assert(seq![(k1, v1)].drop_first() =~= Seq::<(String, Value)>::empty());
        assert(insert_sorted(seq![(k1, v1)], k2, v2) =~= seq![(k2, v2)]);
        assert(insert_sorted(s, k2, v2) =~= seq![(k2, v2)]);
    } else {
        let h = s[0];
        let d = s.drop_first();
        if lex_lt(h.0@, k1@) {
            lemma_insert_sorted_overwrites(d, k1, v1, k2, v2);
            assert(insert_sorted(s, k1, v1) == seq![h] + insert_sorted(d, k1, v1));
            assert((seq![h] + insert_sorted(d, k1, v1))[0] == h);
            assert((seq![h] + insert_sorted(d, k1, v1)).drop_first() =~= insert_sorted(d, k1, v1));
            assert(insert_sorted(insert_sorted(s, k1, v1), k2, v2) == seq![h] + insert_sorted(
                insert_sorted(d, k1, v1),
                k2,
                v2,
            ));
            assert(insert_sorted(s, k2, v2) == seq![h] + insert_sorted(d, k2, v2));
        } else if h.0@ == k1@ {
            assert(insert_sorted(s, k1, v1) == seq![(k1, v1)] + d);
            assert((seq![(k1, v1)] + d)[0] == (k1, v1));
            assert((seq![(k1, v1)] + d).drop_first() =~= d);
            assert(insert_sorted(insert_sorted(s, k1, v1), k2, v2) == seq![(k2, v2)] + d);
            assert(insert_sorted(s, k2, v2) == seq![(k2, v2)] + d);
        } else {
            assert(insert_sorted(s, k1, v1) == seq![(k1, v1)] + s);
            assert((seq![(k1, v1)] + s)[0] == (k1, v1));
            assert((seq![(k1, v1)] + s).drop_first() =~= s);
            assert(insert_sorted(insert_sorted(s, k1, v1), k2, v2) == seq![(k2, v2)] + s);
            assert(insert_sorted(s, k2, v2) == seq![(k2, v2)] + s);
        }
    }
}

impl ValueMap {
    /// Creates an empty mapping.
    pub fn new() -> (r: ValueMap)
        ensures
            r@ == Seq::<(String, Value)>::empty(),
            entries_sorted(r@),
    {
        ValueMap { entries: Vec::new() }
    }

    /// The number of entries.
    pub fn len(&self) -> (n: usize)
        ensures
            n == self@.len(),
    {
        self.entries.len()
    }

    /// Whether the mapping holds no entry.
    pub fn is_empty(&self) -> (r: bool)
        ensures
            r == (self@.len() == 0),
    {
        self.entries.len() == 0
    }

    /// The column name of the entry at position `i`.
    pub fn key_at(&self, i: usize) -> (k: &String)
        requires
            i < self@.len(),
        ensures
            *k == self@[i as int].0,
    {
        &self.entries[i].0
    }

    /// The value of the entry at position `i`.
    pub fn value_at(&self, i: usize) -> (v: &Value)
        requires
            i < self@.len(),
        ensures
            *v == self@[i as int].1,
    {
        &self.entries[i].1
    }

    /// Inserts `value` under `key`, keeping the entries sorted. An entry
    /// already present under the same name is overwritten.
    pub fn insert(&mut self, key: String, value: Value)
        requires
            entries_sorted(old(self)@),
        ensures
            final(self)@ == insert_sorted(old(self)@, key, value),
            entries_sorted(final(self)@),
    {
        let mut i: usize = 0;
        loop
            invariant_except_break
                i <= self@.len(),
                *self == *old(self),
                forall|j: int| 0 <= j < i ==> lex_lt(self@[j].0@, key@),
            ensures
                i <= self@.len(),
                *self == *old(self),
                forall|j: int| 0 <= j < i ==> lex_lt(self@[j].0@, key@),
                i < self@.len() ==> !lex_lt(self@[i as int].0@, key@),
            decreases self@.len() - i,
        {
            if i >= self.entries.len() {
                break ;
            }
            if !str_lt(self.entries[i].0.as_str(), key.as_str()) {
                break ;
            }
            i = i + 1;
        }
        let ghost s = self@;
        if i < self.entries.len() && !str_lt(key.as_str(), self.entries[i].0.as_str()) {
            proof {
                lemma_lex_lt_connected(key@, s[i as int].0@);
                assert(s[i as int].0@ == key@);
                lemma_insert_sorted_position(s, key, value, i as int);
            }
            self.entries.remove(i);
            self.entries.insert(i, (key, value));
            proof {
                assert(self@ =~= s.update(i as int, (key, value)));
                assert forall|a: int, b: int| 0 <= a < b < self@.len() implies lex_lt(
                    self@[a].0@,
                    self@[b].0@,
                ) by {
                    assert(self@[a].0@ == s[a].0@);
                    assert(self@[b].0@ == s[b].0@);
                }
            }
        } else {
            proof {
                if i < s.len() {
                    assert(lex_lt(key@, s[i as int].0@));
                    lemma_lex_lt_asymmetric(key@, s[i as int].0@);
                }
                lemma_insert_sorted_position(s, key, value, i as int);
            }
            self.entries.insert(i, (key, value));
            proof {
                assert(self@ =~= s.take(i as int) + seq![(key, value)] + s.skip(i as int));
                assert forall|a: int, b: int| 0 <= a < b < self@.len() implies lex_lt(
                    self@[a].0@,
                    self@[b].0@,
                ) by {
                    let n = i as int;
                    if a < n && b == n {
                        assert(self@[a].0@ == s[a].0@ && self@[b].0@ == key@);
                    } else if a < n && b > n {
                        assert(self@[a].0@ == s[a].0@ && self@[b].0@ == s[b - 1].0@);
                    } else if a == n && b > n {
                        assert(self@[a].0@ == key@ && self@[b].0@ == s[b - 1].0@);
                        if n < b - 1 {
                            lemma_lex_lt_transitive(key@, s[n].0@, s[b - 1].0@);
                        }
                    } else if a > n && b > n {
                        assert(self@[a].0@ == s[a - 1].0@ && self@[b].0@ == s[b - 1].0@);
                    } else {
                        assert(a < n && b < n);
                        assert(self@[a].0@ == s[a].0@ && self@[b].0@ == s[b].0@);
                    }
                }
            }
        }
    }
}

} // verus!
