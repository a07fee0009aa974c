//! The building blocks of a statement's conditional part: the combinator
//! between successive predicates, the ordering clause, and the single
//! `column = value` predicate.

use vstd::prelude::*;
use vstd::string::StringExecFns;
use crate::value::Value;
use crate::value::value_text;

verus! {

/// How a predicate combines with the one before it.
#[derive(Debug, Clone, Copy)]
pub enum Condition {
    And,
    Or,
}

/// The text of a combinator: `AND` or `OR`.
pub open spec fn condition_text(c: Condition) -> Seq<char> {
    match c {
        Condition::And => "AND"@,
        Condition::Or => "OR"@,
    }
}

impl Condition {
    /// Renders the combinator.
    pub fn as_string(&self) -> (r: String)
        ensures
            r@ == condition_text(*self),
    {
        match self {
            Condition::And => String::from_str("AND"),
            Condition::Or => String::from_str("OR"),
        }
    }
}

/// An `ORDER BY` clause: by a plain column name or by an expression.
/// The two variants render identically; they are kept apart to preserve the
/// caller's intent.
#[derive(Debug, Clone)]
pub enum OrderBy {
    Row(String),
    Expression(String),
}

/// The text of an ordering clause: `ORDER BY ` followed by the column or
/// expression, unescaped.
pub open spec fn order_by_text(ob: OrderBy) -> Seq<char> {
    match ob {
        OrderBy::Row(r) => "ORDER BY "@ + r@,
        OrderBy::Expression(e) => "ORDER BY "@ + e@,
    }
}

impl OrderBy {
    /// Renders the ordering clause.
    pub fn as_string(&self) -> (r: String)
        ensures
            r@ == order_by_text(*self),
    {
        match self {
            OrderBy::Row(r) => {
                let mut s = String::from_str("ORDER BY ");
                s.append(r.as_str());
                s
            },
            OrderBy::Expression(e) => {
                let mut s = String::from_str("ORDER BY ");
                s.append(e.as_str());
                s
            },
        }
    }
}

/// A single `column = value` predicate, carrying the combinator that joins
/// it to the predicate before it. Equality is the only comparison supported.
#[derive(Debug, Clone)]
pub struct WhereClause {
    pub tbl: String,
    pub cond: Value,
    pub how: Condition,
}

/// The predicate with its combinator in front — the form used for every
/// clause after the first in a sequence.
pub open spec fn where_cond_text(w: WhereClause) -> Seq<char> {
    condition_text(w.how) + " "@ + w.tbl@ + " = "@ + value_text(w.cond)
}

/// The predicate with the `WHERE` keyword in front and no combinator — the
/// form used for the first clause in a sequence.
pub open spec fn where_prefix_text(w: WhereClause) -> Seq<char> {
    "WHERE "@ + w.tbl@ + " = "@ + value_text(w.cond)
}

/// The bare predicate, with neither keyword nor combinator.
pub open spec fn where_bare_text(w: WhereClause) -> Seq<char> {
    w.tbl@ + " = "@ + value_text(w.cond)
}

impl WhereClause {
    /// Creates a predicate on column `table` with value `cond`. When `how`
    /// is absent, [`Condition::And`] is assumed.
    pub fn new(table: &str, cond: Value, how: Option<Condition>) -> (r: WhereClause)
        ensures
            r.tbl@ == table@,
            r.cond == cond,
            r.how == (match how {
                Option::Some(c) => c,
                Option::None => Condition::And,
            }),
    {
        if let Some(c) = how {
            WhereClause { tbl: table.to_owned(), cond, how: c }
        } else {
            WhereClause { tbl: table.to_owned(), cond, how: Condition::And }
        }
    }

    /// Renders the predicate with its combinator in front.
    pub fn as_string(&self) -> (r: String)
        ensures
            r@ == where_cond_text(*self),
    {
        let mut s = self.how.as_string();
        s.append(" ");
        s.append(self.tbl.as_str());
        s.append(" = ");
        let v = self.cond.as_string();
        s.append(v.as_str());
        s
    }

    /// Renders the predicate with the `WHERE` keyword and no combinator.
    pub fn as_string_no_cond_with_prefix(&self) -> (r: String)
        ensures
            r@ == where_prefix_text(*self),
    {
        let mut s = String::from_str("WHERE ");
        s.append(self.tbl.as_str());
        s.append(" = ");
        let v = self.cond.as_string();
        s.append(v.as_str());
        s
    }

    /// Renders the bare predicate.
    pub fn as_string_no_cond(&self) -> (r: String)
        ensures
            r@ == where_bare_text(*self),
    {
        let mut s = self.tbl.clone();
        s.append(" = ");
        let v = self.cond.as_string();
        s.append(v.as_str());
        s
    }
}

} // verus!
