//! The `INSERT` statement builder.

use vstd::prelude::*;
use vstd::string::StringExecFns;
use crate::value::Value;
use crate::value::value_text;
use crate::value_map::ValueMap;
use crate::value_map::entries_sorted;

verus! {

/// An `INSERT` statement under construction: the target table and the
/// column/value pairs, kept sorted by column name.
#[derive(Debug)]
pub struct InsertQuery {
    pub into: String,
    pub values: ValueMap,
}

/// The comma-separated column-name list of the first `n` entries.
pub open spec fn keys_text(es: Seq<(String, Value)>, n: int) -> Seq<char>
    decreases n,
{
    if n <= 0 {
        Seq::empty()
    } else if n == 1 {
        es[0].0@
    } else {
        keys_text(es, n - 1) + ", "@ + es[n - 1].0@
    }
}

/// The comma-separated value list of the first `n` entries, in the same
/// order as the column names.
pub open spec fn values_text(es: Seq<(String, Value)>, n: int) -> Seq<char>
    decreases n,
{
    if n <= 0 {
        Seq::empty()
    } else if n == 1 {
        value_text(es[0].1)
    } else {
        values_text(es, n - 1) + ", "@ + value_text(es[n - 1].1)
    }
}

/// The full text of an `INSERT` statement. With no values it degenerates to
/// `INSERT INTO <table>() VALUES()`.
pub open spec fn insert_text(q: InsertQuery) -> Seq<char> {
    "INSERT INTO "@ + q.into@ + "("@ + keys_text(q.values@, q.values@.len() as int)
        + ") VALUES("@ + values_text(q.values@, q.values@.len() as int) + ")"@
}

impl InsertQuery {
    /// Creates an `INSERT` statement into `table`, with no values yet.
    pub fn into(table: &str) -> (r: InsertQuery)
        ensures
            r.into@ == table@,
            r.values@ == Seq::<(String, Value)>::empty(),
            entries_sorted(r.values@),
    {
        InsertQuery { into: table.to_owned(), values: ValueMap::new() }
    }

    /// Renders the statement: the column names in ascending lexicographic
    /// order, and the values in the matching order.
    pub fn as_string(&self) -> (r: String)
        ensures
            r@ == insert_text(*self),
    {
        let mut res = String::from_str("INSERT INTO ");
        res.append(self.into.as_str());
        res.append("(");
        let n = self.values.len();
        let mut i: usize = 0;
        while i < n
            invariant
                i <= n,
                n == self.values@.len(),
                res@ == "INSERT INTO "@ + self.into@ + "("@ + keys_text(self.values@, i as int),
            decreases n - i,
        {
            if i > 0 {
                res.append(", ");
            }
            res.append(self.values.key_at(i).as_str());
            i = i + 1;
            assert(res@ =~= "INSERT INTO "@ + self.into@ + "("@ + keys_text(
                self.values@,
                i as int,
            ));
        }
        res.append(") VALUES(");
        let ghost mid = res@;
        let mut j: usize = 0;
        while j < n
            invariant
                j <= n,
                n == self.values@.len(),
                res@ == mid + values_text(self.values@, j as int),
            decreases n - j,
        {
            if j > 0 {
                res.append(", ");
            }
            let v = self.values.value_at(j).as_string();
            res.append(v.as_str());
            j = j + 1;
            assert(res@ =~= mid + values_text(self.values@, j as int));
        }
        res.append(")");
        assert(res@ =~= insert_text(*self));
        res
    }
}

} // verus!
