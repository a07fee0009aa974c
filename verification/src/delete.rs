//! The `DELETE` statement builder.

use vstd::prelude::*;
use vstd::string::StringExecFns;
use crate::clause::OrderBy;
use crate::clause::WhereClause;
use crate::clause::order_by_text;
use crate::decimal::udec;
use crate::fragment::append_limit_fragment;
use crate::fragment::append_order_fragment;
use crate::fragment::append_where_fragment;
use crate::fragment::limit_fragment;
use crate::fragment::order_fragment;
use crate::fragment::where_fragment;

verus! {

/// A `DELETE` statement under construction: the source table, the `WHERE`
/// predicates in insertion order, an optional limit and an optional
/// ordering.
#[derive(Debug)]
pub struct DeleteQuery {
    pub from: String,
    pub whre: Vec<WhereClause>,
    pub limit: Option<usize>,
    pub order_by: Option<OrderBy>,
}

/// The full text of a `DELETE` statement: the table, the `WHERE` chain,
/// then `ORDER BY`, then `LIMIT`. Note that `ORDER BY` stands before
/// `LIMIT` here — the opposite of a `SELECT` statement, an asymmetry kept
/// deliberately.
pub open spec fn delete_text(q: DeleteQuery) -> Seq<char> {
    "DELETE FROM "@ + q.from@ + where_fragment(q.whre@) + order_fragment(q.order_by)
        + limit_fragment(q.limit)
}

impl DeleteQuery {
    /// Creates a `DELETE` statement on `table`, with no predicates, no
    /// limit and no ordering.
    pub fn from(table: &str) -> (r: DeleteQuery)
        ensures
            r.from@ == table@,
            r.whre@ == Seq::<WhereClause>::empty(),
            r.limit is None,
            r.order_by is None,
    {
        DeleteQuery { from: table.to_owned(), whre: Vec::new(), limit: None, order_by: None }
    }

    /// Sets the limit to `limit`.
    pub fn limit(&mut self, limit: usize)
        ensures
            *final(self) == (DeleteQuery { limit: Some(limit), ..*old(self) }),
    {
        self.limit = Some(limit);
    }

    /// Returns the limit, when one is set.
    pub fn get_limit(&self) -> (r: Option<usize>)
        ensures
            r == self.limit,
    {
        self.limit
    }

    /// Removes the limit.
    pub fn clear_limit(&mut self)
        ensures
            *final(self) == (DeleteQuery { limit: None, ..*old(self) }),
    {
        self.limit = None;
    }

    /// Sets the `ORDER BY` clause to `ob`.
    pub fn order_by(&mut self, ob: OrderBy)
        ensures
            *final(self) == (DeleteQuery { order_by: Some(ob), ..*old(self) }),
    {
        self.order_by = Some(ob);
    }

    /// Reports whether an `ORDER BY` clause is set.
    pub fn is_ordered(&self) -> (r: bool)
        ensures
            r == (self.order_by is Some),
    {
        if let Some(_) = self.order_by {
            true
        } else {
            false
        }
    }

    /// Removes the `ORDER BY` clause.
    pub fn clear_order_by(&mut self)
        ensures
            *final(self) == (DeleteQuery { order_by: None, ..*old(self) }),
    {
        self.order_by = None;
    }

    /// Renders the statement.
    pub fn as_string(&self) -> (r: String)
        ensures
            r@ == delete_text(*self),
    {
        let mut res = String::from_str("DELETE FROM ");
        res.append(self.from.as_str());
        append_where_fragment(&mut res, &self.whre);
        append_order_fragment(&mut res, &self.order_by);
        append_limit_fragment(&mut res, self.limit);
        assert(res@ =~= delete_text(*self));
        res
    }
}

/// In a `DELETE` statement with both set, the `ORDER BY` fragment stands
/// before the `LIMIT` fragment.
pub proof fn lemma_delete_order_by_before_limit(q: DeleteQuery, ob: OrderBy, n: usize)
    requires
        q.order_by == Some(ob),
        q.limit == Some(n),
    ensures
        delete_text(q) == "DELETE FROM "@ + q.from@ + where_fragment(q.whre@) + " "@
            + order_by_text(ob) + " LIMIT "@ + udec(n as nat),
{
    assert(delete_text(q) =~= "DELETE FROM "@ + q.from@ + where_fragment(q.whre@) + " "@
        + order_by_text(ob) + " LIMIT "@ + udec(n as nat));
}

} // verus!
