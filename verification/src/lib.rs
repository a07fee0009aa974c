//! Builders for textual SQL statements.
//!
//! A caller assembles a `SELECT`, `INSERT`, `UPDATE` or `DELETE` statement
//! from typed building blocks — `Value` literals, `WhereClause`
//! predicates, an optional limit and an optional `OrderBy` — and then
//! renders the accumulated state to a single string with `as_string`.
//! Every rendering function carries a contract that pins the produced
//! character sequence down exactly.

pub mod clause;
pub mod decimal;
pub mod delete;
pub mod fragment;
pub mod insert;
pub mod lex;
pub mod select;
pub mod update;
pub mod value;
pub mod value_map;

pub use clause::Condition;
pub use clause::OrderBy;
pub use clause::WhereClause;
pub use delete::DeleteQuery;
pub use insert::InsertQuery;
pub use select::SelectQuery;
pub use update::UpdateQuery;
pub use value::Value;
pub use value_map::ValueMap;
