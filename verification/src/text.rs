//! Small verified text helpers shared across the crate: rendering a
//! non-negative number in decimal, and substring search over characters.

use vstd::prelude::*;

verus! {

/// The character of a single decimal digit.
pub open spec fn digit_char(d: nat) -> char {
    if d == 0 {
        '0'
    } else if d == 1 {
        '1'
    } else if d == 2 {
        '2'
    } else if d == 3 {
        '3'
    } else if d == 4 {
        '4'
    } else if d == 5 {
        '5'
    } else if d == 6 {
        '6'
    } else if d == 7 {
        '7'
    } else if d == 8 {
        '8'
    } else {
        '9'
    }
}

/// The decimal rendering of a natural number, without sign or padding.
pub open spec fn decimal_digits(n: nat) -> Seq<char>
    decreases n,
{
    if n < 10 {
        seq![digit_char(n)]
    } else {
        decimal_digits(n / 10).push(digit_char(n % 10))
    }
}

/// The digits collected least-significant first, read back most-significant
/// first as characters.
spec fn chars_of_rev(digits: Seq<u8>) -> Seq<char> {
    Seq::new(digits.len(), |i: int| digit_char(digits[digits.len() - 1 - i] as nat))
}

/// The text of one decimal digit.
fn digit_text(d: u8) -> (r: &'static str)
    requires
        d < 10,
    ensures
        r@ == seq![digit_char(d as nat)],
{
    proof {
        reveal_strlit("0");
        reveal_strlit("1");
        reveal_strlit("2");
        reveal_strlit("3");
        reveal_strlit("4");
        reveal_strlit("5");
        reveal_strlit("6");
        reveal_strlit("7");
        reveal_strlit("8");
        reveal_strlit("9");
    }
    let r = if d == 0 {
        "0"
    } else if d == 1 {
        "1"
    } else if d == 2 {
        "2"
    } else if d == 3 {
        "3"
    } else if d == 4 {
        "4"
    } else if d == 5 {
        "5"
    } else if d == 6 {
        "6"
    } else if d == 7 {
        "7"
    } else if d == 8 {
        "8"
    } else {
        "9"
    };
    proof {
        assert(r@ =~= seq![digit_char(d as nat)]);
    }
    r
}

/// Render a non-negative number in decimal.
pub fn decimal_string(n: i32) -> (r: String)
    requires
        n >= 0,
    ensures
        r@ == decimal_digits(n as nat),
{
    if n == 0 {
        proof {
            reveal_strlit("0");
            assert("0"@ =~= decimal_digits(0));
        }
        return String::from_str("0");
    }
    let mut digits: Vec<u8> = Vec::new();
    let mut m: i32 = n;
    while m > 0
        invariant
            0 <= m <= n,
            forall|i: int| 0 <= i < digits@.len() ==> digits@[i] < 10,
            m > 0 ==> decimal_digits(n as nat) == decimal_digits(m as nat) + chars_of_rev(
                digits@,
            ),
            m == 0 ==> decimal_digits(n as nat) == chars_of_rev(digits@),
        decreases m,
    {
        let d: u8 = (m % 10) as u8;
        let ghost old_digits = digits@;
        digits.push(d);
        proof {
            assert(chars_of_rev(digits@) =~= seq![digit_char(d as nat)] + chars_of_rev(
                old_digits,
            ));
            if m >= 10 {
                assert(decimal_digits(m as nat) == decimal_digits((m as nat) / 10).push(
                    digit_char((m as nat) % 10),
                ));
                assert(decimal_digits((m as nat) / 10).push(digit_char((m as nat) % 10))
                    + chars_of_rev(old_digits) =~= decimal_digits((m as nat) / 10) + (seq![
                    digit_char((m as nat) % 10),
                ] + chars_of_rev(old_digits)));
                assert((m / 10) as nat == (m as nat) / 10);
                assert((m % 10) as nat == (m as nat) % 10);
            } else {
                assert(decimal_digits(m as nat) =~= seq![digit_char(m as nat)]);
                assert(decimal_digits(m as nat) + chars_of_rev(old_digits) =~= seq![
                    digit_char(m as nat),
                ] + chars_of_rev(old_digits));
            }
        }
        m = m / 10;
    }
    let count = digits.len();
    let mut out = String::new();
    let mut i: usize = 0;
    while i < count
        invariant
            count == digits@.len(),
            i <= count,
            forall|k: int| 0 <= k < digits@.len() ==> digits@[k] < 10,
            decimal_digits(n as nat) == chars_of_rev(digits@),
            out@ == chars_of_rev(digits@).subrange(0, i as int),
        decreases count - i,
    {
        let piece = digit_text(digits[count - 1 - i]);
        out.append(piece);
        proof {
            assert(out@ =~= chars_of_rev(digits@).subrange(0, i + 1 as int));
        }
        i += 1;
    }
    proof {
        assert(out@ =~= chars_of_rev(digits@));
    }
    out
}

/// Whether `needle` occurs as a contiguous run inside `hay` starting at `at`.
pub open spec fn matches_at(hay: Seq<char>, needle: Seq<char>, at: int) -> bool {
    &&& 0 <= at
    &&& at + needle.len() <= hay.len()
    &&& hay.subrange(at, at + needle.len()) == needle
}

/// Whether `needle` occurs anywhere inside `hay`.
pub open spec fn contains_text(hay: Seq<char>, needle: Seq<char>) -> bool {
    exists|at: int| matches_at(hay, needle, at)
}

/// Substring search over characters.
pub fn contains_str(hay: &str, needle: &str) -> (r: bool)
    ensures
        r == contains_text(hay@, needle@),
{
    let n = hay.unicode_len();
    let m = needle.unicode_len();
    if m > n {
        proof {
            assert forall|at: int| !matches_at(hay@, needle@, at) by {
                if 0 <= at && at + needle@.len() <= hay@.len() {
                    assert(false);
                }
            }
        }
        return false;
    }
    let mut at: usize = 0;
    while at <= n - m
        invariant
            m <= n,
            n == hay@.len(),
            m == needle@.len(),
            at <= n - m + 1,
            forall|a: int| 0 <= a < at ==> !matches_at(hay@, needle@, a),
        decreases n - m + 1 - at,
    {
        let mut j: usize = 0;
        let mut ok = true;
        while ok && j < m
            invariant
                j <= m,
                m <= n,
                n == hay@.len(),
                m == needle@.len(),
                at + m <= n,
                ok ==> forall|k: int| 0 <= k < j ==> hay@[at + k] == needle@[k],
                !ok ==> j < m && hay@[at + j] != needle@[j as int],
            decreases m - j + if ok {
                1int
            } else {
                0int
            },
        {
            if hay.get_char(at + j) == needle.get_char(j) {
                j += 1;
            } else {
                ok = false;
            }
        }
        if ok {
            proof {
                assert(hay@.subrange(at as int, at + needle@.len()) =~= needle@);
                assert(matches_at(hay@, needle@, at as int));
            }
            return true;
        }
        proof {
            assert(!matches_at(hay@, needle@, at as int)) by {
                if matches_at(hay@, needle@, at as int) {
                    assert(hay@.subrange(at as int, at + needle@.len())[j as int] == needle@[j as int]);
                }
            }
        }
        at += 1;
    }
    proof {
        assert forall|a: int| !matches_at(hay@, needle@, a) by {
            if 0 <= a && a + needle@.len() <= hay@.len() {
                assert(a < at);
            }
        }
    }
    false
}

} // verus!
