//! The rendering fragments that the statement builders share: the chain of
//! `WHERE` predicates, the optional `LIMIT`, and the optional `ORDER BY`.
//!
//! Every fragment is either empty or starts with a single separating space,
//! so a builder renders its statement by appending fragments to the
//! mandatory head (`SELECT ...`, `DELETE FROM ...`, ...) in its own order.

use vstd::prelude::*;
use vstd::string::StringExecFns;
use crate::clause::OrderBy;
use crate::clause::WhereClause;
use crate::clause::order_by_text;
use crate::clause::where_cond_text;
use crate::clause::where_prefix_text;
use crate::decimal::udec;
use crate::decimal::usize_text;

verus! {

/// The text of the first `n` predicates of `ws` as they stand in a
/// statement: a space and the `WHERE`-prefixed first predicate, then a
/// space and each further predicate with its combinator, in order.
pub open spec fn where_chain_text(ws: Seq<WhereClause>, n: int) -> Seq<char>
    decreases n,
{
    if n <= 0 {
        Seq::empty()
    } else if n == 1 {
        " "@ + where_prefix_text(ws[0])
    } else {
        where_chain_text(ws, n - 1) + " "@ + where_cond_text(ws[n - 1])
    }
}

/// The whole `WHERE` fragment of a statement; empty when there are no
/// predicates.
pub open spec fn where_fragment(ws: Seq<WhereClause>) -> Seq<char> {
    where_chain_text(ws, ws.len() as int)
}

/// The `LIMIT` fragment; empty when no limit is set.
pub open spec fn limit_fragment(l: Option<usize>) -> Seq<char> {
    match l {
        Option::Some(n) => " LIMIT "@ + udec(n as nat),
        Option::None => Seq::empty(),
    }
}

/// The `ORDER BY` fragment; empty when no ordering is set.
pub open spec fn order_fragment(o: Option<OrderBy>) -> Seq<char> {
    match o {
        Option::Some(ob) => " "@ + order_by_text(ob),
        Option::None => Seq::empty(),
    }
}

/// Appends the `WHERE` fragment for `ws` to `out`.
pub fn append_where_fragment(out: &mut String, ws: &Vec<WhereClause>)
    ensures
        final(out)@ == old(out)@ + where_fragment(ws@),
{
    if ws.len() == 0 {
        assert(old(out)@ + where_fragment(ws@) =~= old(out)@);
        return ;
    }
    out.append(" ");
    let first = &ws[0];
    let head = first.as_string_no_cond_with_prefix();
    out.append(head.as_str());
    let mut i: usize = 1;
    assert(out@ =~= old(out)@ + where_chain_text(ws@, 1));
    while i < ws.len()
        invariant
            1 <= i <= ws@.len(),
            out@ == old(out)@ + where_chain_text(ws@, i as int),
        decreases ws@.len() - i,
    {
        out.append(" ");
        let clause = &ws[i];
        let t = clause.as_string();
        out.append(t.as_str());
        i = i + 1;
        assert(out@ =~= old(out)@ + where_chain_text(ws@, i as int));
    }
}

/// Appends the `LIMIT` fragment for `l` to `out`.
pub fn append_limit_fragment(out: &mut String, l: Option<usize>)
    ensures
        final(out)@ == old(out)@ + limit_fragment(l),
{
    match l {
        Some(n) => {
            out.append(" LIMIT ");
            let t = usize_text(n);
            out.append(t.as_str());
            assert(out@ =~= old(out)@ + limit_fragment(l));
        },
        None => {
            assert(old(out)@ + limit_fragment(l) =~= old(out)@);
        },
    }
}

/// Appends the `ORDER BY` fragment for `o` to `out`.
pub fn append_order_fragment(out: &mut String, o: &Option<OrderBy>)
    ensures
        final(out)@ == old(out)@ + order_fragment(*o),
{
    match o {
        Some(ob) => {
            out.append(" ");
            let t = ob.as_string();
            out.append(t.as_str());
            assert(out@ =~= old(out)@ + order_fragment(*o));
        },
        None => {
            assert(old(out)@ + order_fragment(*o) =~= old(out)@);
        },
    }
}

} // verus!
