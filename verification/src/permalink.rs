//! The permalink printed after a post is rendered: the fixed post address
//! followed by the post identifier written in decimal.

use vstd::prelude::*;
use vstd::arithmetic::div_mod::lemma_div_decreases;

verus! {

/// The character for one decimal digit.
pub open spec fn digit_char(d: int) -> char {
    if d == 0 {
        '0'
    } else if d == 1 {
        '1'
    } else if d == 2 {
        '2'
    } else if d == 3 {
        '3'
    } else if d == 4 {
        '4'
    } else if d == 5 {
        '5'
    } else if d == 6 {
        '6'
    } else if d == 7 {
        '7'
    } else if d == 8 {
        '8'
    } else {
        '9'
    }
}

/// The decimal writing of a non-negative integer, most significant digit
/// first, with no leading zero (zero itself is the single digit "0").
pub open spec fn decimal_digits(n: int) -> Seq<char>
    recommends
        n >= 0,
    decreases n,
    when n >= 0
    via decimal_digits_decreases
{
    if n < 10 {
        seq![digit_char(n)]
    } else {
        decimal_digits(n / 10).push(digit_char(n % 10))
    }
}

#[via_fn]
proof fn decimal_digits_decreases(n: int) {
    if n >= 10 {
        lemma_div_decreases(n, 10);
    }
}

/// The digit characters of a digit sequence given least significant first.
pub open spec fn chars_low_first(ds: Seq<u64>) -> Seq<char> {
    ds.map_values(|d: u64| digit_char(d as int))
}

proof fn lemma_push_reverse(ds: Seq<u64>, d: u64)
    ensures
        chars_low_first(ds.push(d)).reverse() == seq![digit_char(d as int)] + chars_low_first(
            ds,
        ).reverse(),
{
    assert(chars_low_first(ds.push(d)).reverse() =~= seq![digit_char(d as int)] + chars_low_first(
        ds,
    ).reverse());
}

/// One decimal digit as text.
fn digit_str(d: u64) -> (r: &'static str)
    requires
        d < 10,
    ensures
        r@ == seq![digit_char(d as int)],
{
    if d == 0 {
        proof {
            reveal_strlit("0");
            assert("0"@ =~= seq![digit_char(0)]);
        }
        "0"
    } else if d == 1 {
        proof {
            reveal_strlit("1");
            assert("1"@ =~= seq![digit_char(1)]);
        }
        "1"
    } else if d == 2 {
        proof {
            reveal_strlit("2");
            assert("2"@ =~= seq![digit_char(2)]);
        }
        "2"
    } else if d == 3 {
        proof {
            reveal_strlit("3");
            assert("3"@ =~= seq![digit_char(3)]);
        }
        "3"
    } else if d == 4 {
        proof {
            reveal_strlit("4");
            assert("4"@ =~= seq![digit_char(4)]);
        }
        "4"
    } else if d == 5 {
        proof {
            reveal_strlit("5");
            assert("5"@ =~= seq![digit_char(5)]);
        }
        "5"
    } else if d == 6 {
        proof {
            reveal_strlit("6");
            assert("6"@ =~= seq![digit_char(6)]);
        }
        "6"
    } else if d == 7 {
        proof {
            reveal_strlit("7");
            assert("7"@ =~= seq![digit_char(7)]);
        }
        "7"
    } else if d == 8 {
        proof {
            reveal_strlit("8");
            assert("8"@ =~= seq![digit_char(8)]);
        }
        "8"
    } else {
        proof {
            reveal_strlit("9");
            assert("9"@ =~= seq![digit_char(9)]);
        }
        "9"
    }
}

/// A non-negative integer written in decimal.
pub fn decimal_string(n: u64) -> (r: String)
    ensures
        r@ == decimal_digits(n as int),
{
    let mut digits: Vec<u64> = Vec::new();
    let mut x: u64 = n;
    digits.push(x % 10);
    proof {
        lemma_push_reverse(Seq::<u64>::empty(), n % 10);
        assert(chars_low_first(Seq::<u64>::empty()).reverse() =~= Seq::<char>::empty());
        if n >= 10 {
            assert(decimal_digits(n as int) == decimal_digits(n as int / 10).push(
                digit_char(n as int % 10),
            ));
            assert(decimal_digits(n as int / 10).push(digit_char(n as int % 10))
                =~= decimal_digits(n as int / 10) + seq![digit_char(n as int % 10)]);
        }
    }
    x = x / 10;
    while x > 0
        invariant
            digits@.len() >= 1,
            forall|i: int| 0 <= i < digits@.len() ==> digits@[i] < 10,
            x == 0 ==> decimal_digits(n as int) == chars_low_first(digits@).reverse(),
            x > 0 ==> decimal_digits(n as int) == decimal_digits(x as int) + chars_low_first(
                digits@,
            ).reverse(),
        decreases x,
    {
        let d = x % 10;
        proof {
            lemma_push_reverse(digits@, d);
            if x >= 10 {
                assert(decimal_digits(x as int) == decimal_digits(x as int / 10).push(
                    digit_char(x as int % 10),
                ));
                assert(decimal_digits(x as int / 10).push(digit_char(x as int % 10))
                    =~= decimal_digits(x as int / 10) + seq![digit_char(x as int % 10)]);
                assert(decimal_digits(x as int / 10) + (seq![digit_char(d as int)]
                    + chars_low_first(digits@).reverse()) =~= (decimal_digits(x as int / 10)
                    + seq![digit_char(d as int)]) + chars_low_first(digits@).reverse());
            } else {
                assert(decimal_digits(x as int) == seq![digit_char(x as int)]);
                assert(seq![digit_char(d as int)] + chars_low_first(digits@).reverse()
                    =~= decimal_digits(x as int) + chars_low_first(digits@).reverse());
            }
            lemma_div_decreases(x as int, 10);
        }
        digits.push(d);
        x = x / 10;
    }
    let ghost target = decimal_digits(n as int);
    proof {
        assert(target == chars_low_first(digits@).reverse());
    }
    let mut out = String::new();
    let mut k: usize = digits.len();
    while k > 0
        invariant
            k <= digits@.len(),
            forall|i: int| 0 <= i < digits@.len() ==> digits@[i] < 10,
            target == chars_low_first(digits@).reverse(),
            out@ == target.take(digits@.len() - k),
        decreases k,
    {
        k = k - 1;
        let s = digit_str(digits[k]);
        out.append(s);
        proof {
            let j = digits@.len() - 1 - k;
            assert(target[j] == digit_char(digits@[k as int] as int));
            assert(target.take(j + 1) =~= target.take(j).push(target[j]));
            assert(target.take(j).push(target[j]) =~= target.take(j) + seq![target[j]]);
        }
    }
    proof {
        assert(target.take(digits@.len() as int) =~= target);
    }
    out
}

/// The page address of one post: the fixed location followed by the post's
/// identifier in decimal.
pub fn post_permalink(id: u64) -> (r: String)
    ensures
        r@ == "https://e621.net/posts/"@ + decimal_digits(id as int),
{
    let mut out = String::from_str("https://e621.net/posts/");
    let digits = decimal_string(id);
    out.append(digits.as_str());
    out
}

} // verus!
