//! Decimal numerals: the canonical decimal text of a machine integer, and
//! verified conversion between `usize` values and that text.

use vstd::prelude::*;
use vstd::string::*;

verus! {

/// The one-character text of a single decimal digit.
pub open spec fn digit_seq(d: nat) -> Seq<char> {
    if d == 0 {
        "0"@
    } else if d == 1 {
        "1"@
    } else if d == 2 {
        "2"@
    } else if d == 3 {
        "3"@
    } else if d == 4 {
        "4"@
    } else if d == 5 {
        "5"@
    } else if d == 6 {
        "6"@
    } else if d == 7 {
        "7"@
    } else if d == 8 {
        "8"@
    } else {
        "9"@
    }
}

/// The canonical decimal numeral of `n`: most significant digit first,
/// no leading zeros (except for `n == 0`, whose numeral is "0").
pub open spec fn dec_rep(n: nat) -> Seq<char>
    decreases n,
{
    if n < 10 {
        digit_seq(n)
    } else {
        dec_rep(n / 10) + digit_seq(n % 10)
    }
}

/// Appends the single digit `d` to `s`.
fn push_digit(s: &mut String, d: usize)
    requires
        d < 10,
    ensures
        final(s)@ == old(s)@ + digit_seq(d as nat),
{
    if d == 0 {
        s.append("0");
    } else if d == 1 {
        s.append("1");
    } else if d == 2 {
        s.append("2");
    } else if d == 3 {
        s.append("3");
    } else if d == 4 {
        s.append("4");
    } else if d == 5 {
        s.append("5");
    } else if d == 6 {
        s.append("6");
    } else if d == 7 {
        s.append("7");
    } else if d == 8 {
        s.append("8");
    } else {
        s.append("9");
    }
}

/// Appends the decimal numeral of `n` to `s`.
pub fn push_dec(s: &mut String, n: usize)
    ensures
        final(s)@ == old(s)@ + dec_rep(n as nat),
    decreases n,
{
    if n < 10 {
        push_digit(s, n);
    } else {
        push_dec(s, n / 10);
        push_digit(s, n % 10);
        proof {
            assert(old(s)@ + dec_rep((n / 10) as nat) + digit_seq((n % 10) as nat) =~= old(
                s,
            )@ + dec_rep(n as nat));
        }
    }
}

/// The decimal numeral of `n` as a fresh string.
pub fn usize_to_string(n: usize) -> (r: String)
    ensures
        r@ == dec_rep(n as nat),
{
    let mut s = String::new();
    push_dec(&mut s, n);
    proof {
        assert(s@ =~= dec_rep(n as nat));
    }
    s
}

/// The numeric value of a decimal digit character, if it is one.
pub open spec fn digit_val(c: char) -> Option<nat> {
    if c == '0' {
        Some(0 as nat)
    } else if c == '1' {
        Some(1 as nat)
    } else if c == '2' {
        Some(2 as nat)
    } else if c == '3' {
        Some(3 as nat)
    } else if c == '4' {
        Some(4 as nat)
    } else if c == '5' {
        Some(5 as nat)
    } else if c == '6' {
        Some(6 as nat)
    } else if c == '7' {
        Some(7 as nat)
    } else if c == '8' {
        Some(8 as nat)
    } else if c == '9' {
        Some(9 as nat)
    } else {
        None
    }
}

/// The digit's value, or zero for a non-digit.
pub open spec fn digit_val_or_zero(c: char) -> nat {
    match digit_val(c) {
        Some(d) => d,
        None => 0,
    }
}

/// Whether every character of `s` is a decimal digit.
pub open spec fn all_digits(s: Seq<char>) -> bool {
    forall|i: int| 0 <= i < s.len() ==> digit_val(s[i]) is Some
}

/// The value of a digit string read most significant digit first (non-digits
/// count as zero; callers pair this with `all_digits`).
pub open spec fn digits_value(s: Seq<char>) -> nat
    decreases s.len(),
{
    if s.len() == 0 {
        0
    } else {
        digits_value(s.drop_last()) * 10 + digit_val_or_zero(s.last())
    }
}

/// The mathematical value of a decimal numeral text: an optional leading plus
/// sign followed by one or more digits; anything else has no value.
pub open spec fn numeral_value(s: Seq<char>) -> Option<nat> {
    let t = if s.len() > 0 && s[0] == '+' {
        s.skip(1)
    } else {
        s
    };
    if t.len() > 0 && all_digits(t) {
        Some(digits_value(t))
    } else {
        None
    }
}

/// Reading one more digit multiplies the value by ten and adds that digit.
pub proof fn lemma_digits_value_snoc(s: Seq<char>, j: int)
    requires
        0 <= j < s.len(),
    ensures
        digits_value(s.take(j + 1)) == digits_value(s.take(j)) * 10 + digit_val_or_zero(s[j]),
{
    assert(s.take(j + 1).drop_last() =~= s.take(j));
    assert(s.take(j + 1).last() == s[j]);
}

/// A digit string is worth at least any of its prefixes.
pub proof fn lemma_digits_value_prefix_le(s: Seq<char>, j: int)
    requires
        0 <= j <= s.len(),
    ensures
        digits_value(s.take(j)) <= digits_value(s),
    decreases s.len() - j,
{
    if j == s.len() {
        assert(s.take(j) =~= s);
    } else {
        lemma_digits_value_snoc(s, j);
        lemma_digits_value_prefix_le(s, j + 1);
        assert(digits_value(s.take(j)) <= digits_value(s.take(j)) * 10 + digit_val_or_zero(s[j]));
    }
}

/// Whether a character is a decimal digit.
pub open spec fn is_dec_digit(c: char) -> bool {
    digit_val(c) is Some
}

/// A single-digit text is one character, and that character carries the
/// digit's value.
pub proof fn lemma_digit_seq_char(d: nat)
    requires
        d < 10,
    ensures
        digit_seq(d).len() == 1,
        digit_val(digit_seq(d)[0]) == Some(d),
{
    reveal_strlit("0");
    reveal_strlit("1");
    reveal_strlit("2");
    reveal_strlit("3");
    reveal_strlit("4");
    reveal_strlit("5");
    reveal_strlit("6");
    reveal_strlit("7");
    reveal_strlit("8");
    reveal_strlit("9");
}

/// Every character of a decimal numeral is a digit, and a numeral is never
/// empty.
pub proof fn lemma_dec_rep_digits(n: nat)
    ensures
        dec_rep(n).len() >= 1,
        forall|i: int| 0 <= i < dec_rep(n).len() ==> is_dec_digit(dec_rep(n)[i]),
    decreases n,
{
    if n < 10 {
        lemma_digit_seq_char(n);
    } else {
        lemma_dec_rep_digits(n / 10);
        lemma_digit_seq_char(n % 10);
    }
}

/// A numeral is one digit exactly when its value is below ten.
pub proof fn lemma_dec_rep_len(n: nat)
    ensures
        n < 10 ==> dec_rep(n).len() == 1,
        n >= 10 ==> dec_rep(n).len() >= 2,
{
    if n < 10 {
        lemma_digit_seq_char(n);
    } else {
        lemma_dec_rep_digits(n / 10);
        lemma_digit_seq_char(n % 10);
    }
}

/// Distinct numbers have distinct decimal numerals.
pub proof fn lemma_dec_rep_injective(a: nat, b: nat)
    requires
        dec_rep(a) == dec_rep(b),
    ensures
        a == b,
    decreases a,
{
    if a < 10 && b < 10 {
        lemma_digit_seq_char(a);
        lemma_digit_seq_char(b);
        assert(digit_val(dec_rep(a)[0]) == Some(a));
        assert(digit_val(dec_rep(b)[0]) == Some(b));
    } else if a < 10 && b >= 10 {
        lemma_dec_rep_len(a);
        lemma_dec_rep_len(b);
        assert(false);
    } else if a >= 10 && b < 10 {
        lemma_dec_rep_len(a);
        lemma_dec_rep_len(b);
        assert(false);
    } else {
        lemma_digit_seq_char(a % 10);
        lemma_digit_seq_char(b % 10);
        let la = dec_rep(a / 10);
        let lb = dec_rep(b / 10);
        let m = la.len() as int;
        assert(la.len() == lb.len());
        assert((la + digit_seq(a % 10))[m] == digit_seq(a % 10)[0]);
        assert((lb + digit_seq(b % 10))[m] == digit_seq(b % 10)[0]);
        assert(a % 10 == b % 10);
        assert(la =~= (la + digit_seq(a % 10)).subrange(0, m));
        assert(lb =~= (lb + digit_seq(b % 10)).subrange(0, m));
        lemma_dec_rep_injective(a / 10, b / 10);
    }
}

/// The digit value of a character, computed.
fn digit_of(c: char) -> (r: Option<usize>)
    ensures
        match digit_val(c) {
            Some(v) => r == Some(v as usize),
            None => r is None,
        },
{
    match c {
        '0' => Some(0),
        '1' => Some(1),
        '2' => Some(2),
        '3' => Some(3),
        '4' => Some(4),
        '5' => Some(5),
        '6' => Some(6),
        '7' => Some(7),
        '8' => Some(8),
        '9' => Some(9),
        _ => None,
    }
}

/// Parses a decimal numeral (optional leading plus sign, then digits) into a
/// `usize`. Returns the numeral's value exactly when the text is such a
/// numeral and its value fits the machine word; returns nothing otherwise.
pub fn parse_usize(s: &str) -> (r: Option<usize>)
    ensures
        match numeral_value(s@) {
            None => r is None,
            Some(v) => if v <= usize::MAX {
                r == Some(v as usize)
            } else {
                r is None
            },
        },
{
    let len = s.unicode_len();
    let mut j: usize = 0;
    if len > 0 && s.get_char(0) == '+' {
        j = 1;
    }
    let ghost start = j as int;
    let ghost t = s@.skip(start);
    proof {
        assert(s@.skip(0) =~= s@);
    }
    if j == len {
        // empty digit part: no value
        proof {
            assert(t.len() == 0);
        }
        return None;
    }
    let mut n: usize = 0;
    while j < len
        invariant
            start <= j <= len,
            0 <= start <= 1,
            len == s@.len(),
            t == s@.skip(start),
            t == (if s@.len() > 0 && s@[0] == '+' {
                s@.skip(1)
            } else {
                s@
            }),
            forall|k: int| 0 <= k < j - start ==> digit_val(t[k]) is Some,
            n == digits_value(t.take(j - start)),
        decreases len - j,
    {
        let c = s.get_char(j);
        proof {
            assert(t[j - start] == s@[j as int]);
        }
        match digit_of(c) {
            None => {
                // a non-digit: the text is not a numeral
                proof {
                    assert(!all_digits(t));
                }
                return None;
            },
            Some(d) => {
                proof {
                    lemma_digits_value_snoc(t, j - start);
                }
                if n > (usize::MAX - d) / 10 {
                    // the numeral's value exceeds the machine word
                    proof {
                        assert(digits_value(t.take(j - start + 1)) > usize::MAX);
                        lemma_digits_value_prefix_le(t, j - start + 1);
                    }
                    return None;
                }
                proof {
                    assert(n * 10 + d <= usize::MAX) by {
                        assert(n <= (usize::MAX - d) / 10);
                        assert(n * 10 <= ((usize::MAX - d) / 10) * 10);
                        assert(((usize::MAX - d) / 10) * 10 <= usize::MAX - d);
                    };
                }
                n = n * 10 + d;
            },
        }
        j = j + 1;
    }
    proof {
        assert(t.take(len - start) =~= t);
    }
    Some(n)
}

} // verus!

