//! The `SELECT` statement builder.

use vstd::prelude::*;
use vstd::string::StrSliceExecFns;
use vstd::string::StringExecFns;
use crate::clause::OrderBy;
use crate::clause::WhereClause;
use crate::clause::order_by_text;
use crate::decimal::udec;
use crate::fragment::append_limit_fragment;
use crate::fragment::append_order_fragment;
use crate::fragment::append_where_fragment;
use crate::fragment::limit_fragment;
use crate::fragment::order_fragment;
use crate::fragment::where_fragment;

verus! {

/// A `SELECT` statement under construction: the selected columns, the
/// source table, the `WHERE` predicates in insertion order, an optional
/// limit and an optional ordering.
#[derive(Debug)]
pub struct SelectQuery {
    pub select: Vec<String>,
    pub from: String,
    pub whre: Vec<WhereClause>,
    pub limit: Option<usize>,
    pub order_by: Option<OrderBy>,
}

/// The text of the first `n` selected columns: `SELECT ` and the first
/// column, then `, ` and each further column, in order.
pub open spec fn columns_text(cols: Seq<String>, n: int) -> Seq<char>
    decreases n,
{
    if n <= 0 {
        Seq::empty()
    } else if n == 1 {
        "SELECT "@ + cols[0]@
    } else {
        columns_text(cols, n - 1) + ", "@ + cols[n - 1]@
    }
}

/// The head of the statement; empty when no column was given.
pub open spec fn select_head(cols: Seq<String>) -> Seq<char> {
    columns_text(cols, cols.len() as int)
}

/// The `FROM` fragment. A table name of one character or none is not
/// rendered — a deliberate boundary quirk of the rendering rules, not tied
/// to the name merely being nonempty.
pub open spec fn from_fragment(t: Seq<char>) -> Seq<char> {
    if t.len() > 1 {
        " FROM "@ + t
    } else {
        Seq::empty()
    }
}

/// The full text of a `SELECT` statement: columns, `FROM`, the `WHERE`
/// chain, `LIMIT`, then `ORDER BY` — each fragment only when present.
pub open spec fn select_text(q: SelectQuery) -> Seq<char> {
    select_head(q.select@) + from_fragment(q.from@) + where_fragment(q.whre@)
        + limit_fragment(q.limit) + order_fragment(q.order_by)
}

impl SelectQuery {
    /// Creates a statement selecting the columns `rows`, with no table, no
    /// predicates, no limit and no ordering.
    pub fn select(rows: &[&str]) -> (r: SelectQuery)
        ensures
            r.select@.len() == rows@.len(),
            forall|j: int| 0 <= j < rows@.len() ==> r.select@[j]@ == rows@[j]@,
            r.from@ == Seq::<char>::empty(),
            r.whre@ == Seq::<WhereClause>::empty(),
            r.limit is None,
            r.order_by is None,
    {
        let mut cols: Vec<String> = Vec::new();
        let mut i: usize = 0;
        while i < rows.len()
            invariant
                i <= rows@.len(),
                cols@.len() == i,
                forall|j: int| 0 <= j < i ==> cols@[j]@ == rows@[j]@,
            decreases rows@.len() - i,
        {
            let s = rows[i];
            cols.push(s.to_owned());
            i = i + 1;
        }
        SelectQuery {
            select: cols,
            from: String::new(),
            whre: Vec::new(),
            limit: None,
            order_by: None,
        }
    }

    /// Sets the table to select from, returning the builder for chaining.
    pub fn from(self, t: &str) -> (r: Self)
        ensures
            r.select == self.select,
            r.from@ == t@,
            r.whre == self.whre,
            r.limit == self.limit,
            r.order_by == self.order_by,
    {
        SelectQuery { from: t.to_owned(), ..self }
    }

    /// Sets the limit to `l`.
    pub fn limit(&mut self, l: usize)
        ensures
            *final(self) == (SelectQuery { limit: Some(l), ..*old(self) }),
    {
        self.limit = Some(l);
    }

    /// Reports whether a limit is set.
    pub fn has_limit(&self) -> (r: bool)
        ensures
            r == (self.limit is Some),
    {
        if let Some(_) = self.limit {
            return true;
        }
        false
    }

    /// Returns the limit, when one is set.
    pub fn get_limit(&self) -> (r: Option<usize>)
        ensures
            r == self.limit,
    {
        self.limit
    }

    /// Removes the limit.
    pub fn clear_limit(&mut self)
        ensures
            *final(self) == (SelectQuery { limit: None, ..*old(self) }),
    {
        self.limit = None;
    }

    /// Sets the `ORDER BY` clause to `ob`.
    pub fn order_by(&mut self, ob: OrderBy)
        ensures
            *final(self) == (SelectQuery { order_by: Some(ob), ..*old(self) }),
    {
        self.order_by = Some(ob);
    }

    /// Renders the statement. Rendering is pure: the result is a function
    /// of the builder's state alone, and the builder is left untouched.
    pub fn as_string(&self) -> (r: String)
        ensures
            r@ == select_text(*self),
    {
        let mut res = String::new();
        if self.select.len() > 0 {
            res.append("SELECT ");
            res.append(self.select[0].as_str());
            assert(res@ =~= columns_text(self.select@, 1));
            let mut i: usize = 1;
            while i < self.select.len()
                invariant
                    1 <= i <= self.select@.len(),
                    res@ == columns_text(self.select@, i as int),
                decreases self.select@.len() - i,
            {
                res.append(", ");
                res.append(self.select[i].as_str());
                i = i + 1;
                assert(res@ =~= columns_text(self.select@, i as int));
            }
        }
        assert(res@ =~= select_head(self.select@));
        if self.from.as_str().unicode_len() > 1 {
            res.append(" FROM ");
            res.append(self.from.as_str());
        }
        assert(res@ =~= select_head(self.select@) + from_fragment(self.from@));
        append_where_fragment(&mut res, &self.whre);
        append_limit_fragment(&mut res, self.limit);
        append_order_fragment(&mut res, &self.order_by);
        assert(res@ =~= select_text(*self));
        res
    }
}

/// With no ordering set, a limit of `n` appends exactly one ` LIMIT n`
/// fragment at the end of the rendered statement, and clearing the limit
/// yields exactly the statement without it.
pub proof fn lemma_select_limit_appended_once(q: SelectQuery, n: usize)
    requires
        q.limit == Some(n),
        q.order_by is None,
    ensures
        select_text(q) == select_text((SelectQuery { limit: None, ..q })) + " LIMIT "@ + udec(
            n as nat,
        ),
{
    assert(select_text(q) =~= select_text((SelectQuery { limit: None, ..q })) + " LIMIT "@ + udec(
        n as nat,
    ));
}

/// In a `SELECT` statement with both set, the `LIMIT` fragment stands
/// before the `ORDER BY` fragment — the opposite of a `DELETE` statement.
pub proof fn lemma_select_limit_before_order_by(q: SelectQuery, ob: OrderBy, n: usize)
    requires
        q.order_by == Some(ob),
        q.limit == Some(n),
    ensures
        select_text(q) == select_head(q.select@) + from_fragment(q.from@) + where_fragment(q.whre@)
            + " LIMIT "@ + udec(n as nat) + " "@ + order_by_text(ob),
{
    assert(select_text(q) =~= select_head(q.select@) + from_fragment(q.from@) + where_fragment(
        q.whre@,
    ) + " LIMIT "@ + udec(n as nat) + " "@ + order_by_text(ob));
}

/// A table name of one character or none leaves the `FROM` fragment out of
/// the rendered statement entirely.
pub proof fn lemma_select_short_table_omits_from(q: SelectQuery)
    requires
        q.from@.len() <= 1,
    ensures
        select_text(q) == select_head(q.select@) + where_fragment(q.whre@) + limit_fragment(
            q.limit,
        ) + order_fragment(q.order_by),
{
    assert(select_text(q) =~= select_head(q.select@) + where_fragment(q.whre@) + limit_fragment(
        q.limit,
    ) + order_fragment(q.order_by));
}

} // verus!
