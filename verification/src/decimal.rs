//! Exact decimal values for tool options that take fractional numbers
//! (zoom factors, resolutions, column spacing and the like).
//!
//! A `Decimal` holds a non-negative value as an integer mantissa and a scale:
//! the value is `mantissa / 10^scale`. Construction normalises the pair, so
//! equal values always have equal fields and `==` decides value equality.
//! Rendering (`dec_text`) writes the shortest form, `1.5`, `0.7` or `2`, and
//! `lemma_dec_text_injective` shows the rendering is lossless.

use vstd::prelude::*;
use crate::numeral::{
    all_digits, digit_text, digit_val, digits_of, lemma_digit_text_facts, lemma_digits_roundtrip,
    text_val, u64_to_text,
};

verus! {

/// Largest scale a `Decimal` may carry: nine fractional digits.
pub const MAX_SCALE: u8 = 9;

/// A non-negative decimal number `mantissa / 10^scale`, kept in canonical
/// form: either the scale is zero, or the mantissa's last digit is not zero.
#[derive(Clone, Copy, PartialEq, Eq, Structural, Debug)]
pub struct Decimal {
    pub mantissa: u64,
    pub scale: u8,
}

/// `10^e`.
pub open spec fn pow10(e: nat) -> nat
    decreases e,
{
    if e == 0 {
        1
    } else {
        10 * pow10((e - 1) as nat)
    }
}

/// `n` zero characters.
pub open spec fn zeros(n: nat) -> Seq<char>
    decreases n,
{
    if n == 0 {
        Seq::empty()
    } else {
        zeros((n - 1) as nat) + "0"@
    }
}

/// The fractional digits: `frac` zero-padded on the left to `width` digits.
pub open spec fn frac_text(frac: nat, width: nat) -> Seq<char> {
    zeros((width - digits_of(frac).len()) as nat) + digits_of(frac)
}

/// The rendering of a decimal: the whole part, and, when the scale is
/// positive, a point followed by exactly `scale` fractional digits.
pub open spec fn dec_text(d: Decimal) -> Seq<char> {
    if d.scale == 0 {
        digits_of(d.mantissa as nat)
    } else {
        digits_of((d.mantissa as nat / pow10(d.scale as nat)) as nat) + "."@ + frac_text(
            d.mantissa as nat % pow10(d.scale as nat),
            d.scale as nat,
        )
    }
}

impl Decimal {
    /// Canonical form with a bounded scale.
    pub open spec fn wf(self) -> bool {
        self.scale <= MAX_SCALE && (self.scale == 0 || self.mantissa % 10 != 0)
    }

    /// The value scaled to a common fixed point, `mantissa * 10^(MAX_SCALE - scale)`:
    /// two decimals denote the same number exactly when these agree.
    pub open spec fn scaled_value(self) -> int
        recommends
            self.scale <= MAX_SCALE,
    {
        self.mantissa * pow10((MAX_SCALE - self.scale) as nat)
    }

    /// Builds the decimal `mantissa / 10^scale`, normalised: trailing zero
    /// digits of the fraction are dropped, so the value is kept exactly.
    pub fn new(mantissa: u64, scale: u8) -> (r: Decimal)
        requires
            scale <= MAX_SCALE,
        ensures
            r.wf(),
            r.scaled_value() == (Decimal { mantissa, scale }).scaled_value(),
    {
        let mut m: u64 = mantissa;
        let mut s: u8 = scale;
        while s > 0 && m % 10 == 0
            invariant
                s <= MAX_SCALE,
                (Decimal { mantissa: m, scale: s }).scaled_value() == (Decimal {
                    mantissa,
                    scale,
                }).scaled_value(),
            decreases s,
        {
            proof {
                lemma_drop_zero(m as nat, s as nat);
            }
            m = m / 10;
            s = s - 1;
        }
        Decimal { mantissa: m, scale: s }
    }

    /// Decides well-formedness, as `wf` says.
    pub fn check_wf(&self) -> (r: bool)
        ensures
            r == self.wf(),
    {
        self.scale <= MAX_SCALE && (self.scale == 0 || self.mantissa % 10 != 0)
    }

    /// The whole number `n`.
    pub fn whole(n: u64) -> (r: Decimal)
        ensures
            r.wf(),
            r == (Decimal { mantissa: n, scale: 0 }),
    {
        Decimal { mantissa: n, scale: 0 }
    }

    /// Renders the value in base ten, shortest form.
    pub fn to_text(&self) -> (r: String)
        requires
            self.wf(),
        ensures
            r@ == dec_text(*self),
    {
        if self.scale == 0 {
            u64_to_text(self.mantissa)
        } else {
            let p = pow10_u64(self.scale);
            let whole = self.mantissa / p;
            let frac = self.mantissa % p;
            let frac_digits = u64_to_text(frac);
            proof {
                lemma_digits_len_le(frac as nat, self.scale as nat);
            }
            let mut pad: String = String::new();
            let width = self.scale as usize;
            let mut have: usize = frac_digits.as_str().unicode_len();
            proof {
                lemma_digits_roundtrip(frac as nat);
            }
            while have < width
                invariant
                    width <= MAX_SCALE as usize,
                    have <= width,
                    have == pad@.len() + digits_of(frac as nat).len(),
                    pad@ == zeros(pad@.len() as nat),
                decreases width - have,
            {
                proof {
                    reveal_strlit("0");
                }
                pad.append("0");
                have = have + 1;
            }
            let out = u64_to_text(whole).concat(".").concat(pad.as_str()).concat(
                frac_digits.as_str(),
            );
            proof {
                assert(pad@ + frac_digits@ =~= frac_text(frac as nat, self.scale as nat));
                assert(out@ =~= dec_text(*self));
            }
            out
        }
    }
}

/// `10^e` as a machine integer.
fn pow10_u64(e: u8) -> (r: u64)
    requires
        e <= MAX_SCALE,
    ensures
        r == pow10(e as nat),
        r >= 1,
{
    let mut r: u64 = 1;
    let mut i: u8 = 0;
    while i < e
        invariant
            i <= e <= MAX_SCALE,
            r == pow10(i as nat),
            r >= 1,
        decreases e - i,
    {
        proof {
            lemma_pow10_bound(i as nat);
        }
        r = r * 10;
        i = i + 1;
        assert(r == pow10(i as nat)) by {
            assert(pow10(i as nat) == 10 * pow10((i - 1) as nat));
        }
    }
    r
}

proof fn lemma_pow10_bound(e: nat)
    requires
        e <= MAX_SCALE,
    ensures
        pow10(e) <= 1_000_000_000,
{
    assert(pow10(MAX_SCALE as nat) == 1_000_000_000) by {
        reveal_with_fuel(pow10, 10);
    }
    lemma_pow10_mono(e, MAX_SCALE as nat);
}

proof fn lemma_pow10_add(a: nat, b: nat)
    ensures
        pow10(a + b) == pow10(a) * pow10(b),
    decreases b,
{
    if b == 0 {
        assert(pow10(a + 0) == pow10(a) * 1);
    } else {
        lemma_pow10_add(a, (b - 1) as nat);
        let x = pow10((b - 1) as nat);
        assert(pow10(a + b) == 10 * pow10((a + b - 1) as nat));
        assert(pow10(b) == 10 * x);
        assert(pow10(a) * (10 * x) == 10 * (pow10(a) * x)) by (nonlinear_arith);
        assert(pow10(a) * pow10(b) == 10 * pow10((a + b - 1) as nat));
    }
}

/// Two well-formed decimals that denote the same number are the same
/// decimal: the canonical form is unique, so `==` decides value equality.
pub proof fn lemma_scaled_value_injective(a: Decimal, b: Decimal)
    requires
        a.wf(),
        b.wf(),
        a.scaled_value() == b.scaled_value(),
    ensures
        a == b,
{
    if a.scale == b.scale {
        let p = pow10((MAX_SCALE - a.scale) as nat);
        lemma_pow10_mono(0, (MAX_SCALE - a.scale) as nat);
        assert(a.mantissa == b.mantissa) by (nonlinear_arith)
            requires
                a.mantissa * p == b.mantissa * p,
                p >= 1,
        ;
    } else if a.scale < b.scale {
        lemma_unequal_scales(a, b);
        assert(false);
    } else {
        lemma_unequal_scales(b, a);
        assert(false);
    }
}

/// A well-formed decimal with a strictly smaller scale never denotes the
/// same number as one with a larger scale: the larger scale's mantissa would
/// have to end in a zero digit, which canonical form forbids.
proof fn lemma_unequal_scales(a: Decimal, b: Decimal)
    requires
        a.wf(),
        b.wf(),
        a.scale < b.scale,
    ensures
        a.scaled_value() != b.scaled_value(),
{
    if a.scaled_value() != b.scaled_value() {
        return;
    }
    let k = (b.scale - a.scale) as nat;
    let ea = (MAX_SCALE - a.scale) as nat;
    let eb = (MAX_SCALE - b.scale) as nat;
    lemma_pow10_add(eb, k);
    assert(pow10(ea) == pow10(eb) * pow10(k));
    let pb = pow10(eb);
    let pk = pow10(k);
    lemma_pow10_mono(0, eb);
    let ma = a.mantissa as nat;
    let mb = b.mantissa as nat;
    assert(ma * (pb * pk) == mb * pb);
    assert(ma * pk == mb) by (nonlinear_arith)
        requires
            ma * (pb * pk) == mb * pb,
            pb >= 1,
    ;
    assert(pk == 10 * pow10((k - 1) as nat));
    let half = pow10((k - 1) as nat);
    assert(mb == (ma * half) * 10) by (nonlinear_arith)
        requires
            mb == ma * pk,
            pk == 10 * half,
    ;
    assert(((ma * half) * 10) % 10 == 0) by (nonlinear_arith);
    assert(b.scale > 0 && b.mantissa % 10 != 0);
    assert(false);
}

proof fn lemma_pow10_mono(a: nat, b: nat)
    requires
        a <= b,
    ensures
        pow10(a) <= pow10(b),
        pow10(a) >= 1,
    decreases b,
{
    if a < b {
        lemma_pow10_mono(a, (b - 1) as nat);
        assert(pow10(b) == 10 * pow10((b - 1) as nat));
    } else if b > 0 {
        lemma_pow10_mono((a - 1) as nat, (b - 1) as nat);
    }
}

/// Dividing a mantissa whose last digit is zero by ten and lowering the
/// scale by one keeps the denoted value.
proof fn lemma_drop_zero(m: nat, s: nat)
    requires
        1 <= s <= MAX_SCALE,
        m % 10 == 0,
    ensures
        (m / 10) * pow10((MAX_SCALE - s + 1) as nat) == m * pow10((MAX_SCALE - s) as nat),
{
    let e = (MAX_SCALE - s) as nat;
    assert(pow10((e + 1) as nat) == 10 * pow10(e));
    assert(m == 10 * (m / 10) + m % 10);
    assert((m / 10) * (10 * pow10(e)) == (10 * (m / 10)) * pow10(e)) by (nonlinear_arith);
}

/// A number below `10^k` renders in at most `k` digits.
proof fn lemma_digits_len_le(n: nat, k: nat)
    requires
        k >= 1,
        n < pow10(k),
    ensures
        digits_of(n).len() <= k,
    decreases k,
{
    if n < 10 {
        lemma_digit_text_facts(n as int);
    } else {
        assert(pow10(k) == 10 * pow10((k - 1) as nat));
        assert(n / 10 < pow10((k - 1) as nat)) by {
            assert(n == 10 * (n / 10) + n % 10);
        }
        assert(k >= 2) by {
            if k == 1 {
                assert(pow10(1nat) == 10 * pow10(0nat));
            }
        }
        lemma_digits_len_le(n / 10 as nat, (k - 1) as nat);
        lemma_digit_text_facts((n % 10) as int);
        assert(digits_of(n) == digits_of((n / 10) as nat) + digit_text((n % 10) as int));
    }
}

/// Leading zeros do not change the value a digit string denotes.
proof fn lemma_text_val_zeros(k: nat, s: Seq<char>)
    ensures
        text_val(zeros(k) + s) == text_val(s),
        zeros(k).len() == k,
        all_digits(zeros(k)),
    decreases k, s.len(),
{
    reveal_strlit("0");
    if s.len() == 0 {
        if k == 0 {
            assert(zeros(k) + s =~= Seq::<char>::empty());
        } else {
            let t = zeros(k) + s;
            assert(t =~= zeros(k));
            assert(zeros(k) == zeros((k - 1) as nat) + "0"@);
            assert(t.last() == '0');
            assert(t.drop_last() =~= zeros((k - 1) as nat) + Seq::<char>::empty());
            lemma_text_val_zeros((k - 1) as nat, Seq::empty());
        }
    } else {
        let t = zeros(k) + s;
        assert(t.last() == s.last());
        assert(t.drop_last() =~= zeros(k) + s.drop_last());
        lemma_text_val_zeros(k, s.drop_last());
    }
    assert forall|i: int| 0 <= i < zeros(k).len() implies digit_val(#[trigger] zeros(k)[i]) >= 0 by {
        lemma_zeros_index(k, i);
    }
}

proof fn lemma_zeros_len(k: nat)
    ensures
        zeros(k).len() == k,
    decreases k,
{
    reveal_strlit("0");
    if k > 0 {
        lemma_zeros_len((k - 1) as nat);
        assert(zeros(k) == zeros((k - 1) as nat) + "0"@);
    }
}

proof fn lemma_zeros_index(k: nat, i: int)
    requires
        0 <= i < k,
    ensures
        zeros(k)[i] == '0',
    decreases k,
{
    reveal_strlit("0");
    lemma_zeros_len(k);
    lemma_zeros_len((k - 1) as nat);
    assert(zeros(k) == zeros((k - 1) as nat) + "0"@);
    if i < k - 1 {
        lemma_zeros_index((k - 1) as nat, i);
    }
}

/// The fractional digit block reads back to the fraction it encodes.
proof fn lemma_frac_text_val(frac: nat, width: nat)
    requires
        width >= 1,
        frac < pow10(width),
    ensures
        frac_text(frac, width).len() == width,
        all_digits(frac_text(frac, width)),
        text_val(frac_text(frac, width)) == frac,
{
    lemma_digits_roundtrip(frac);
    lemma_digits_len_le(frac, width);
    let pad = (width - digits_of(frac).len()) as nat;
    lemma_text_val_zeros(pad, digits_of(frac));
    let t = frac_text(frac, width);
    assert forall|i: int| 0 <= i < t.len() implies digit_val(#[trigger] t[i]) >= 0 by {
        if i < pad {
            assert(t[i] == zeros(pad)[i]);
        } else {
            assert(t[i] == digits_of(frac)[i - pad]);
        }
    }
}

/// Two well-formed decimals with the same rendering are the same decimal:
/// rendering is lossless.
pub proof fn lemma_dec_text_injective(a: Decimal, b: Decimal)
    requires
        a.wf(),
        b.wf(),
        dec_text(a) == dec_text(b),
    ensures
        a == b,
{
    reveal_strlit(".");
    lemma_digit_point(a);
    lemma_digit_point(b);
    let ta = dec_text(a);
    if a.scale == 0 && b.scale == 0 {
        lemma_digits_roundtrip(a.mantissa as nat);
        lemma_digits_roundtrip(b.mantissa as nat);
    } else if a.scale > 0 && b.scale > 0 {
        let pa = pow10(a.scale as nat);
        let pb = pow10(b.scale as nat);
        let wa = digits_of(a.mantissa as nat / pa);
        let wb = digits_of(b.mantissa as nat / pb);
        let fa = frac_text(a.mantissa as nat % pa, a.scale as nat);
        let fb = frac_text(b.mantissa as nat % pb, b.scale as nat);
        lemma_pow10_mono(0, a.scale as nat);
        lemma_pow10_mono(0, b.scale as nat);
        assert(a.mantissa as nat % pa < pa);
        assert(b.mantissa as nat % pb < pb);
        lemma_digits_roundtrip(a.mantissa as nat / pa);
        lemma_digits_roundtrip(b.mantissa as nat / pb);
        lemma_frac_text_val(a.mantissa as nat % pa, a.scale as nat);
        lemma_frac_text_val(b.mantissa as nat % pb, b.scale as nat);
        // The point stands right after the whole digits; digits are never the
        // point, so both renderings put it at the same index.
        assert(ta[wa.len() as int] == '.');
        assert(dec_text(b)[wb.len() as int] == '.');
        assert(wa.len() == wb.len()) by {
            if wa.len() < wb.len() {
                assert(dec_text(b)[wa.len() as int] == wb[wa.len() as int]);
                assert(digit_val(wb[wa.len() as int]) >= 0);
                assert(digit_val('.') == -1);
            } else if wb.len() < wa.len() {
                assert(ta[wb.len() as int] == wa[wb.len() as int]);
                assert(digit_val(wa[wb.len() as int]) >= 0);
                assert(digit_val('.') == -1);
            }
        }
        assert(ta.len() == wa.len() + 1 + fa.len());
        assert(fa.len() == fb.len());
        assert(a.scale == b.scale);
        assert(wa =~= wb) by {
            assert forall|i: int| 0 <= i < wa.len() implies wa[i] == wb[i] by {
                assert(ta[i] == wa[i]);
                assert(dec_text(b)[i] == wb[i]);
            }
        }
        assert(fa =~= fb) by {
            assert forall|i: int| 0 <= i < fa.len() implies fa[i] == fb[i] by {
                assert(ta[wa.len() + 1 + i] == fa[i]);
                assert(dec_text(b)[wb.len() + 1 + i] == fb[i]);
            }
        }
        assert(a.mantissa as nat / pa == b.mantissa as nat / pb);
        assert(a.mantissa as nat % pa == b.mantissa as nat % pb);
        assert(a.mantissa == b.mantissa) by {
            assert(a.mantissa as nat == pa * (a.mantissa as nat / pa) + a.mantissa as nat % pa) by {
                lemma_fundamental(a.mantissa as nat, pa);
            }
            assert(b.mantissa as nat == pb * (b.mantissa as nat / pb) + b.mantissa as nat % pb) by {
                lemma_fundamental(b.mantissa as nat, pb);
            }
        }
    } else {
        // One rendering holds a point, the other only digits: they differ.
        let with_point = if a.scale > 0 { a } else { b };
        let without = if a.scale > 0 { b } else { a };
        let p = pow10(with_point.scale as nat);
        let w = digits_of(with_point.mantissa as nat / p);
        lemma_digits_roundtrip(with_point.mantissa as nat / p);
        lemma_digits_roundtrip(without.mantissa as nat);
        assert(dec_text(with_point)[w.len() as int] == '.');
        assert(w.len() < dec_text(without).len()) by {
            lemma_pow10_mono(0, with_point.scale as nat);
            assert(with_point.mantissa as nat % p < p);
            lemma_frac_text_val(with_point.mantissa as nat % p, with_point.scale as nat);
        }
        assert(digit_val(dec_text(without)[w.len() as int]) >= 0);
        assert(digit_val('.') == -1);
    }
}

proof fn lemma_fundamental(n: nat, p: nat)
    requires
        p >= 1,
    ensures
        n == p * (n / p) + n % p,
{
    assert(n == p * (n / p) + n % p) by (nonlinear_arith)
        requires
            p >= 1,
    ;
}

/// A well-formed rendering never holds a point when the scale is zero and
/// always holds digits where digits are claimed.
proof fn lemma_digit_point(d: Decimal)
    requires
        d.wf(),
    ensures
        d.scale == 0 ==> all_digits(dec_text(d)),
{
    if d.scale == 0 {
        lemma_digits_roundtrip(d.mantissa as nat);
    }
}

} // verus!
