//! Decimal rendering of the integer kinds a `Value` can hold.
//!
//! The specification functions `udec` and `idec` give the canonical decimal
//! text of an integer — no leading zeros, a sign only when the integer is
//! negative — and the executable functions below produce exactly that text.

use vstd::prelude::*;
use vstd::string::StringExecFns;

verus! {

/// The decimal digit character for `d` (meaningful for `d < 10`).
pub open spec fn digit_char(d: nat) -> char {
    if d == 0 {
        '0'
    } else if d == 1 {
        '1'
    } else if d == 2 {
        '2'
    } else if d == 3 {
        '3'
    } else if d == 4 {
        '4'
    } else if d == 5 {
        '5'
    } else if d == 6 {
        '6'
    } else if d == 7 {
        '7'
    } else if d == 8 {
        '8'
    } else {
        '9'
    }
}

/// The decimal text of a nonnegative integer: most significant digit first,
/// no leading zeros.
pub open spec fn udec(n: nat) -> Seq<char>
    decreases n,
{
    if n < 10 {
        seq![digit_char(n)]
    } else {
        udec(n / 10).push(digit_char(n % 10))
    }
}

/// The decimal text of an integer: the sign appears only when `n` is negative.
pub open spec fn idec(n: int) -> Seq<char> {
    if n >= 0 {
        udec(n as nat)
    } else {
        seq!['-'] + udec((-n) as nat)
    }
}

/// The one-character string slice for a single decimal digit.
fn digit_str(d: u64) -> (r: &'static str)
    requires
        d < 10,
    ensures
        r@ == seq![digit_char(d as nat)],
{
    if d == 0 {
        proof {
            reveal_strlit("0");
        }
        "0"
    } else if d == 1 {
        proof {
            reveal_strlit("1");
        }
        "1"
    } else if d == 2 {
        proof {
            reveal_strlit("2");
        }
        "2"
    } else if d == 3 {
        proof {
            reveal_strlit("3");
        }
        "3"
    } else if d == 4 {
        proof {
            reveal_strlit("4");
        }
        "4"
    } else if d == 5 {
        proof {
            reveal_strlit("5");
        }
        "5"
    } else if d == 6 {
        proof {
            reveal_strlit("6");
        }
        "6"
    } else if d == 7 {
        proof {
            reveal_strlit("7");
        }
        "7"
    } else if d == 8 {
        proof {
            reveal_strlit("8");
        }
        "8"
    } else {
        proof {
            reveal_strlit("9");
        }
        "9"
    }
}

/// Renders `n` as decimal text.
pub fn u64_text(n: u64) -> (r: String)
    ensures
        r@ == udec(n as nat),
    decreases n,
{
    if n < 10 {
        digit_str(n).to_owned()
    } else {
        let mut s = u64_text(n / 10);
        s.append(digit_str(n % 10));
        proof {
            assert(udec(n as nat) == udec(n as nat / 10) + seq![digit_char(n as nat % 10)]);
        }
        s
    }
}

/// Renders `n` as decimal text.
pub fn usize_text(n: usize) -> (r: String)
    ensures
        r@ == udec(n as nat),
{
    u64_text(n as u64)
}

/// Renders `n` as decimal text, with a leading minus sign when `n` is negative.
pub fn i64_text(n: i64) -> (r: String)
    ensures
        r@ == idec(n as int),
{
    if n >= 0 {
        u64_text(n as u64)
    } else {
        let m: u64 = (-(n as i128)) as u64;
        let mut s = String::from_str("-");
        let digits = u64_text(m);
        s.append(digits.as_str());
        proof {
            reveal_strlit("-");
            assert(s@ == idec(n as int));
        }
        s
    }
}

} // verus!
