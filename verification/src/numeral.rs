//! Decimal rendering of integers.
//!
//! Command-line values are rendered in ordinary base-ten notation. The
//! rendering is specified by `digits_of` / `int_text` and shown lossless:
//! `text_val` reads the value back out of the rendered digit string.

use vstd::prelude::*;

verus! {

/// The single digit `d` as text.
pub open spec fn digit_text(d: int) -> Seq<char> {
    if d == 0 {
        "0"@
    } else if d == 1 {
        "1"@
    } else if d == 2 {
        "2"@
    } else if d == 3 {
        "3"@
    } else if d == 4 {
        "4"@
    } else if d == 5 {
        "5"@
    } else if d == 6 {
        "6"@
    } else if d == 7 {
        "7"@
    } else if d == 8 {
        "8"@
    } else {
        "9"@
    }
}

/// The base-ten rendering of `n`, most significant digit first, with no
/// leading zero except for `n == 0` itself.
pub open spec fn digits_of(n: nat) -> Seq<char>
    decreases n,
{
    if n < 10 {
        digit_text(n as int)
    } else {
        digits_of((n / 10) as nat) + digit_text((n % 10) as int)
    }
}

/// The base-ten rendering of a possibly negative integer.
pub open spec fn int_text(i: int) -> Seq<char> {
    if i < 0 {
        "-"@ + digits_of((-i) as nat)
    } else {
        digits_of(i as nat)
    }
}

/// The numeric value of a digit character; `-1` for any other character.
pub open spec fn digit_val(c: char) -> int {
    if c == '0' {
        0
    } else if c == '1' {
        1
    } else if c == '2' {
        2
    } else if c == '3' {
        3
    } else if c == '4' {
        4
    } else if c == '5' {
        5
    } else if c == '6' {
        6
    } else if c == '7' {
        7
    } else if c == '8' {
        8
    } else if c == '9' {
        9
    } else {
        -1
    }
}

/// The value a digit string denotes, read most significant digit first.
pub open spec fn text_val(s: Seq<char>) -> int
    decreases s.len(),
{
    if s.len() == 0 {
        0
    } else {
        text_val(s.drop_last()) * 10 + digit_val(s.last())
    }
}

/// Every character of `s` is a decimal digit.
pub open spec fn all_digits(s: Seq<char>) -> bool {
    forall|i: int| 0 <= i < s.len() ==> digit_val(#[trigger] s[i]) >= 0
}

/// A single digit renders as exactly one character, and that character reads
/// back as the digit.
pub proof fn lemma_digit_text_facts(d: int)
    requires
        0 <= d < 10,
    ensures
        digit_text(d).len() == 1,
        digit_val(digit_text(d)[0]) == d,
{
    reveal_strlit("0");
    reveal_strlit("1");
    reveal_strlit("2");
    reveal_strlit("3");
    reveal_strlit("4");
    reveal_strlit("5");
    reveal_strlit("6");
    reveal_strlit("7");
    reveal_strlit("8");
    reveal_strlit("9");
}

/// The rendering of `n` is non-empty, made of digits only, and reading it
/// back yields `n`: rendering loses nothing.
pub proof fn lemma_digits_roundtrip(n: nat)
    ensures
        digits_of(n).len() >= 1,
        all_digits(digits_of(n)),
        text_val(digits_of(n)) == n,
    decreases n,
{
    if n < 10 {
        lemma_digit_text_facts(n as int);
        let s = digits_of(n);
        assert(s.drop_last() =~= Seq::<char>::empty());
        assert(text_val(s) == text_val(s.drop_last()) * 10 + digit_val(s.last()));
    } else {
        let q = (n / 10) as nat;
        let r = (n % 10) as int;
        lemma_digits_roundtrip(q);
        lemma_digit_text_facts(r);
        let s = digits_of(n);
        assert(s == digits_of(q) + digit_text(r));
        assert(s.last() == digit_text(r)[0]);
        assert(s.drop_last() =~= digits_of(q));
        assert(text_val(s) == text_val(digits_of(q)) * 10 + r);
        assert(q * 10 + r == n) by {
            assert(n == 10 * (n / 10) + n % 10);
        }
        assert forall|i: int| 0 <= i < s.len() implies digit_val(#[trigger] s[i]) >= 0 by {
            if i < digits_of(q).len() {
                assert(s[i] == digits_of(q)[i]);
            } else {
                assert(s[i] == digit_text(r)[0]);
            }
        }
    }
}

/// Two integers with the same rendering are the same integer.
pub proof fn lemma_int_text_injective(a: int, b: int)
    requires
        int_text(a) == int_text(b),
    ensures
        a == b,
{
    reveal_strlit("-");
    lemma_digits_roundtrip(if a < 0 { (-a) as nat } else { a as nat });
    lemma_digits_roundtrip(if b < 0 { (-b) as nat } else { b as nat });
    if a < 0 && b < 0 {
        let sa = "-"@ + digits_of((-a) as nat);
        let sb = "-"@ + digits_of((-b) as nat);
        assert(digits_of((-a) as nat) =~= sa.subrange(1, sa.len() as int));
        assert(digits_of((-b) as nat) =~= sb.subrange(1, sb.len() as int));
        assert(text_val(digits_of((-a) as nat)) == text_val(digits_of((-b) as nat)));
    } else if a >= 0 && b >= 0 {
        assert(text_val(digits_of(a as nat)) == text_val(digits_of(b as nat)));
    } else if a < 0 && b >= 0 {
        let sa = "-"@ + digits_of((-a) as nat);
        assert(sa[0] == '-');
        assert(digit_val(int_text(b)[0]) >= 0);
        assert(digit_val('-') == -1);
    } else {
        let sb = "-"@ + digits_of((-b) as nat);
        assert(sb[0] == '-');
        assert(digit_val(int_text(a)[0]) >= 0);
        assert(digit_val('-') == -1);
    }
}

/// One decimal digit as a string slice.
fn digit_to_text(d: u64) -> (r: &'static str)
    requires
        d < 10,
    ensures
        r@ == digit_text(d as int),
{
    if d == 0 {
        "0"
    } else if d == 1 {
        "1"
    } else if d == 2 {
        "2"
    } else if d == 3 {
        "3"
    } else if d == 4 {
        "4"
    } else if d == 5 {
        "5"
    } else if d == 6 {
        "6"
    } else if d == 7 {
        "7"
    } else if d == 8 {
        "8"
    } else {
        "9"
    }
}

/// Renders `n` in base ten.
pub fn u64_to_text(n: u64) -> (r: String)
    ensures
        r@ == digits_of(n as nat),
    decreases n,
{
    if n < 10 {
        digit_to_text(n).to_owned()
    } else {
        let prefix = u64_to_text(n / 10);
        prefix.concat(digit_to_text(n % 10))
    }
}

/// Renders `i` in base ten, with a leading minus sign when negative.
pub fn i32_to_text(i: i32) -> (r: String)
    ensures
        r@ == int_text(i as int),
{
    if i < 0 {
        let magnitude: u64 = (-(i as i64)) as u64;
        "-".to_owned().concat(u64_to_text(magnitude).as_str())
    } else {
        u64_to_text(i as u64)
    }
}

} // verus!
