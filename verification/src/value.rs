//! Typed SQL literals and their canonical text.

use vstd::prelude::*;
use vstd::string::StringExecFns;
use crate::decimal::idec;
use crate::decimal::udec;
use crate::decimal::i64_text;
use crate::decimal::u64_text;

verus! {

/// A typed SQL literal, covering the common scalar column types.
///
/// Rendering a `Value` is total and canonical: every variant has exactly one
/// textual form, given by [`value_text`].
#[derive(Debug, Clone)]
pub enum Value {
    Varchar(String),
    Bool(bool),
    Tinyint(i8),
    UnsignedTinyint(u8),
    Smallint(i16),
    UnsignedSmallint(u16),
    Int(i32),
    UnsignedInt(u32),
    Bigint(i64),
    UnsignedBigint(u64),
}

/// The canonical text of a literal: character text wrapped in single quotes
/// (no escaping), booleans as the upper-case words `TRUE` and `FALSE`, and
/// integers in decimal with a sign only when negative.
pub open spec fn value_text(v: Value) -> Seq<char> {
    match v {
        Value::Varchar(s) => "'"@ + s@ + "'"@,
        Value::Bool(b) => if b {
            "TRUE"@
        } else {
            "FALSE"@
        },
        Value::Tinyint(n) => idec(n as int),
        Value::UnsignedTinyint(n) => udec(n as nat),
        Value::Smallint(n) => idec(n as int),
        Value::UnsignedSmallint(n) => udec(n as nat),
        Value::Int(n) => idec(n as int),
        Value::UnsignedInt(n) => udec(n as nat),
        Value::Bigint(n) => idec(n as int),
        Value::UnsignedBigint(n) => udec(n as nat),
    }
}

impl Value {
    /// Renders the literal to its canonical text.
    pub fn as_string(&self) -> (r: String)
        ensures
            r@ == value_text(*self),
    {
        match self {
            Value::Varchar(s) => {
                let mut r = String::from_str("'");
                r.append(s.as_str());
                r.append("'");
                r
            },
            Value::Bool(b) => {
                if *b {
                    String::from_str("TRUE")
                } else {
                    String::from_str("FALSE")
                }
            },
            Value::Tinyint(n) => i64_text(*n as i64),
            Value::UnsignedTinyint(n) => u64_text(*n as u64),
            Value::Smallint(n) => i64_text(*n as i64),
            Value::UnsignedSmallint(n) => u64_text(*n as u64),
            Value::Int(n) => i64_text(*n as i64),
            Value::UnsignedInt(n) => u64_text(*n as u64),
            Value::Bigint(n) => i64_text(*n),
            Value::UnsignedBigint(n) => u64_text(*n),
        }
    }
}

/// Rendering a literal is deterministic: the contract of
/// [`Value::as_string`] pins the result's characters to `value_text`, a
/// function of the value alone, so any two renderings of the same value
/// are identical.
pub proof fn lemma_value_render_deterministic(v: Value, r1: Seq<char>, r2: Seq<char>)
    requires
        r1 == value_text(v),
        r2 == value_text(v),
    ensures
        r1 == r2,
{
}

/// A character literal always round-trips through single-quote wrapping:
/// its rendered text is exactly a quote, the characters themselves, and a
/// closing quote.
pub proof fn lemma_varchar_quoted(s: String)
    ensures
        value_text(Value::Varchar(s)) == "'"@ + s@ + "'"@,
        value_text(Value::Varchar(s)).len() == s@.len() + 2,
{
    reveal_strlit("'");
}

/// A boolean renders to exactly `TRUE` or `FALSE` — upper case, never the
/// lower-case words and never a digit.
pub proof fn lemma_bool_text(b: bool)
    ensures
        value_text(Value::Bool(b)) == if b {
            "TRUE"@
        } else {
            "FALSE"@
        },
        value_text(Value::Bool(true)) != "true"@,
        value_text(Value::Bool(true)) != "1"@,
        value_text(Value::Bool(false)) != "false"@,
        value_text(Value::Bool(false)) != "0"@,
{
    reveal_strlit("TRUE");
    reveal_strlit("FALSE");
    reveal_strlit("true");
    reveal_strlit("false");
    reveal_strlit("1");
    reveal_strlit("0");
    assert("TRUE"@[0] == 'T' && "true"@[0] == 't');
    assert("FALSE"@[0] == 'F' && "false"@[0] == 'f');
    assert("TRUE"@.len() == 4 && "1"@.len() == 1);
    assert("FALSE"@.len() == 5 && "0"@.len() == 1);
}

} // verus!
