//! The `UPDATE` statement builder.

use vstd::prelude::*;
use vstd::string::StringExecFns;
use crate::clause::WhereClause;
use crate::fragment::append_limit_fragment;
use crate::fragment::append_where_fragment;
use crate::fragment::limit_fragment;
use crate::fragment::where_fragment;
use crate::value::Value;
use crate::value::value_text;
use crate::value_map::ValueMap;
use crate::value_map::entries_sorted;

verus! {

/// An `UPDATE` statement under construction: the target table, the `SET`
/// assignments kept sorted by column name, the `WHERE` predicates in
/// insertion order, and an optional limit.
#[derive(Debug)]
pub struct UpdateQuery {
    pub update: String,
    pub set: ValueMap,
    pub whre: Vec<WhereClause>,
    pub limit: Option<usize>,
}

/// The `SET` list of the first `n` assignments: ` SET ` and the first
/// `column = value`, then `, ` and each further assignment.
pub open spec fn set_text(es: Seq<(String, Value)>, n: int) -> Seq<char>
    decreases n,
{
    if n <= 0 {
        Seq::empty()
    } else if n == 1 {
        " SET "@ + es[0].0@ + " = "@ + value_text(es[0].1)
    } else {
        set_text(es, n - 1) + ", "@ + es[n - 1].0@ + " = "@ + value_text(es[n - 1].1)
    }
}

/// The full text of an `UPDATE` statement: the table, the `SET` list (left
/// out when empty), the `WHERE` chain, then `LIMIT`.
pub open spec fn update_text(q: UpdateQuery) -> Seq<char> {
    "UPDATE "@ + q.update@ + set_text(q.set@, q.set@.len() as int) + where_fragment(q.whre@)
        + limit_fragment(q.limit)
}

impl UpdateQuery {
    /// Creates an `UPDATE` statement on `table`, with no assignments, no
    /// predicates and no limit.
    pub fn update(table: &str) -> (r: UpdateQuery)
        ensures
            r.update@ == table@,
            r.set@ == Seq::<(String, Value)>::empty(),
            entries_sorted(r.set@),
            r.whre@ == Seq::<WhereClause>::empty(),
            r.limit is None,
    {
        UpdateQuery {
            update: table.to_owned(),
            set: ValueMap::new(),
            whre: Vec::new(),
            limit: None,
        }
    }

    /// Sets the limit to `l`.
    pub fn limit(&mut self, l: usize)
        ensures
            *final(self) == (UpdateQuery { limit: Some(l), ..*old(self) }),
    {
        self.limit = Some(l);
    }

    /// Reports whether a limit is set.
    pub fn has_limit(&self) -> (r: bool)
        ensures
            r == (self.limit is Some),
    {
        if let Some(_) = self.limit {
            return true;
        }
        false
    }

    /// Returns the limit, when one is set.
    pub fn get_limit(&self) -> (r: Option<usize>)
        ensures
            r == self.limit,
    {
        self.limit
    }

    /// Renders the statement. The assignments appear in ascending
    /// lexicographic column order.
    pub fn as_string(&self) -> (r: String)
        ensures
            r@ == update_text(*self),
    {
        let mut res = String::from_str("UPDATE ");
        res.append(self.update.as_str());
        let n = self.set.len();
        let mut i: usize = 0;
        while i < n
            invariant
                i <= n,
                n == self.set@.len(),
                res@ == "UPDATE "@ + self.update@ + set_text(self.set@, i as int),
            decreases n - i,
        {
            if i == 0 {
                res.append(" SET ");
            } else {
                res.append(", ");
            }
            res.append(self.set.key_at(i).as_str());
            res.append(" = ");
            let v = self.set.value_at(i).as_string();
            res.append(v.as_str());
            i = i + 1;
            assert(res@ =~= "UPDATE "@ + self.update@ + set_text(self.set@, i as int));
        }
        append_where_fragment(&mut res, &self.whre);
        append_limit_fragment(&mut res, self.limit);
        assert(res@ =~= update_text(*self));
        res
    }
}

} // verus!
