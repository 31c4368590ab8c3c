//! Decimal rendering of counts, for the finding messages.

use vstd::prelude::*;

verus! {

/// The decimal digit character for `d`.
pub open spec fn digit_char(d: int) -> char {
    if d == 0 {
        '0'
    } else if d == 1 {
        '1'
    } else if d == 2 {
        '2'
    } else if d == 3 {
        '3'
    } else if d == 4 {
        '4'
    } else if d == 5 {
        '5'
    } else if d == 6 {
        '6'
    } else if d == 7 {
        '7'
    } else if d == 8 {
        '8'
    } else {
        '9'
    }
}

/// The decimal digits of `n`, most significant first, without
/// leading zeros (zero itself is "0").
pub open spec fn dec_digits(n: nat) -> Seq<char>
    decreases n,
{
    if n < 10 {
        seq![digit_char(n as int)]
    } else {
        dec_digits(n / 10).push(digit_char((n % 10) as int))
    }
}

/// The decimal digits named by a stack of digits, least significant
/// digit last in the stack.
spec fn stack_chars(ds: Seq<u64>) -> Seq<char>
    decreases ds.len(),
{
    if ds.len() == 0 {
        Seq::empty()
    } else {
        seq![digit_char(ds.last() as int)] + stack_chars(ds.drop_last())
    }
}

/// Appends the digit character for `d` to `s`.
fn push_digit(s: &mut String, d: u64)
    requires
        d < 10,
    ensures
        final(s)@ == old(s)@.push(digit_char(d as int)),
{
    if d == 0 {
        s.append("0");
        proof {
            reveal_strlit("0");
            assert(s@ =~= old(s)@.push(digit_char(d as int)));
        }
    } else if d == 1 {
        s.append("1");
        proof {
            reveal_strlit("1");
            assert(s@ =~= old(s)@.push(digit_char(d as int)));
        }
    } else if d == 2 {
        s.append("2");
        proof {
            reveal_strlit("2");
            assert(s@ =~= old(s)@.push(digit_char(d as int)));
        }
    } else if d == 3 {
        s.append("3");
        proof {
            reveal_strlit("3");
            assert(s@ =~= old(s)@.push(digit_char(d as int)));
        }
    } else if d == 4 {
        s.append("4");
        proof {
            reveal_strlit("4");
            assert(s@ =~= old(s)@.push(digit_char(d as int)));
        }
    } else if d == 5 {
        s.append("5");
        proof {
            reveal_strlit("5");
            assert(s@ =~= old(s)@.push(digit_char(d as int)));
        }
    } else if d == 6 {
        s.append("6");
        proof {
            reveal_strlit("6");
            assert(s@ =~= old(s)@.push(digit_char(d as int)));
        }
    } else if d == 7 {
        s.append("7");
        proof {
            reveal_strlit("7");
            assert(s@ =~= old(s)@.push(digit_char(d as int)));
        }
    } else if d == 8 {
        s.append("8");
        proof {
            reveal_strlit("8");
            assert(s@ =~= old(s)@.push(digit_char(d as int)));
        }
    } else {
        s.append("9");
        proof {
            reveal_strlit("9");
            assert(s@ =~= old(s)@.push(digit_char(d as int)));
        }
    }
}

/// Renders `n` in decimal.
pub fn u64_to_string(n: u64) -> (r: String)
    ensures
        r@ == dec_digits(n as nat),
{
    let mut digits: Vec<u64> = Vec::new();
    let mut m: u64 = n;
    proof {
        assert(dec_digits(n as nat) =~= dec_digits(n as nat) + stack_chars(digits@));
    }
    while m >= 10
        invariant
            dec_digits(n as nat) == dec_digits(m as nat) + stack_chars(digits@),
            forall|x: int| 0 <= x < digits@.len() ==> #[trigger] digits@[x] < 10,
        decreases m,
    {
        let d: u64 = m % 10;
        let ghost pre = digits@;
        digits.push(d);
        proof {
            assert(digits@.drop_last() =~= pre);
            assert(stack_chars(digits@) == seq![digit_char(d as int)] + stack_chars(pre));
            assert(dec_digits(m as nat) == dec_digits((m / 10) as nat).push(
                digit_char((m % 10) as int),
            ));
            assert(dec_digits((m / 10) as nat) + stack_chars(digits@) =~= dec_digits(m as nat)
                + stack_chars(pre));
        }
        m = m / 10;
    }
    let ghost pre = digits@;
    digits.push(m);
    proof {
        assert(digits@.drop_last() =~= pre);
        assert(stack_chars(digits@) == seq![digit_char(m as int)] + stack_chars(pre));
        assert(dec_digits(n as nat) =~= stack_chars(digits@));
    }
    let mut r = String::new();
    let mut k: usize = digits.len();
    proof {
        assert(digits@.subrange(0, digits@.len() as int) =~= digits@);
        assert(r@ + stack_chars(digits@) =~= stack_chars(digits@));
    }
    while k > 0
        invariant
            k <= digits@.len(),
            forall|x: int| 0 <= x < digits@.len() ==> #[trigger] digits@[x] < 10,
            r@ + stack_chars(digits@.subrange(0, k as int)) == stack_chars(digits@),
        decreases k,
    {
        let d: u64 = digits[k - 1];
        push_digit(&mut r, d);
        proof {
            let cur = digits@.subrange(0, k as int);
            assert(cur.drop_last() =~= digits@.subrange(0, k as int - 1));
            assert(cur.last() == d);
            assert(stack_chars(cur) == seq![digit_char(d as int)] + stack_chars(
                digits@.subrange(0, k as int - 1),
            ));
            assert(r@ + stack_chars(digits@.subrange(0, k as int - 1)) =~= stack_chars(digits@));
        }
        k = k - 1;
    }
    proof {
        assert(digits@.subrange(0, 0) =~= Seq::<u64>::empty());
        assert(r@ =~= stack_chars(digits@));
    }
    r
}

} // verus!
