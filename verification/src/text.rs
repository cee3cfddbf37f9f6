//! Decimal text of integers, as `Display` writes them.
use crate::money::{abs, digit_char, digits};
use vstd::prelude::*;

verus! {

broadcast use vstd::string::group_string_axioms;

/// How `Display` writes an integer: an optional minus sign, then its decimal
/// digits (`0` for zero).
pub open spec fn int_text(n: int) -> Seq<char> {
    let d = if n == 0 { seq!['0'] } else { digits(abs(n) as nat) };
    if n < 0 { seq!['-'] + d } else { d }
}

fn digit_string(d: u64) -> (r: String)
    requires
        d < 10,
    ensures
        r@ == seq![digit_char(d as int)],
{
    proof {
        reveal_strlit("0");
        reveal_strlit("1");
        reveal_strlit("2");
        reveal_strlit("3");
        reveal_strlit("4");
        reveal_strlit("5");
        reveal_strlit("6");
        reveal_strlit("7");
        reveal_strlit("8");
        reveal_strlit("9");
    }
    let s = if d == 0 {
        "0"
    } else if d == 1 {
        "1"
    } else if d == 2 {
        "2"
    } else if d == 3 {
        "3"
    } else if d == 4 {
        "4"
    } else if d == 5 {
        "5"
    } else if d == 6 {
        "6"
    } else if d == 7 {
        "7"
    } else if d == 8 {
        "8"
    } else {
        "9"
    };
    let r = s.to_string();
    assert(r@ =~= seq![digit_char(d as int)]);
    r
}

/// Writes an integer in decimal, as `n.to_string()` does.
pub fn int_to_text(n: i64) -> (r: String)
    ensures
        r@ == int_text(n as int),
{
    let neg = n < 0;
    let mut m: u64 = if neg {
        if n == i64::MIN {
            9223372036854775808u64
        } else {
            (-n) as u64
        }
    } else {
        n as u64
    };
    let ghost whole = m as nat;
    assert(whole == abs(n as int));
    let mut acc = String::new();
    if m == 0 {
        acc = digit_string(0);
        proof {
            assert(acc@ =~= seq!['0']);
        }
    } else {
        while m > 0
            invariant
                digits(whole) == digits(m as nat) + acc@,
            decreases m,
        {
            let d = m % 10;
            let mut t = digit_string(d);
            t.append(acc.as_str());
            proof {
                assert(digits(m as nat) == digits((m / 10) as nat).push(digit_char(d as int)));
                assert(digits(whole) =~= digits((m / 10) as nat) + t@);
            }
            acc = t;
            m = m / 10;
        }
        assert(digits(0) =~= Seq::<char>::empty());
        assert(acc@ =~= digits(whole));
    }
    if neg {
        let mut s = "-".to_string();
        s.append(acc.as_str());
        proof {
            reveal_strlit("-");
            assert(s@ =~= int_text(n as int));
        }
        s
    } else {
        acc
    }
}

} // verus!
