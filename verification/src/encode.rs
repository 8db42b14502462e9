//! The shared option-encoding machinery.
//!
//! Every tool's option encoder walks a fixed table of fields: a boolean field
//! contributes its fixed flag token exactly when it is true; a numeric or
//! string field contributes one `"-flag value"` token exactly when its value
//! differs from the field's default. The spec functions here state those
//! per-field contributions, the `push_*` functions perform them, and the
//! `lemma_*_field_tokens` lemmas record the emission rules once and for all.

use vstd::prelude::*;
use crate::decimal::{dec_text, Decimal};
use crate::numeral::{i32_to_text, int_text};

verus! {

/// The token texts of an argument vector.
pub open spec fn toks(v: Seq<String>) -> Seq<Seq<char>> {
    v.map_values(|s: String| s@)
}

/// What a boolean field adds to the argument list.
pub open spec fn opt_flag(cond: bool, tok: Seq<char>) -> Seq<Seq<char>> {
    if cond {
        seq![tok]
    } else {
        Seq::empty()
    }
}

/// The single token `"-flag value"`.
pub open spec fn flag_value_tok(flag: Seq<char>, value: Seq<char>) -> Seq<char> {
    flag + " "@ + value
}

/// What a numeric (integer) field adds to the argument list.
pub open spec fn opt_i32(cur: i32, def: i32, flag: Seq<char>) -> Seq<Seq<char>> {
    if cur != def {
        seq![flag_value_tok(flag, int_text(cur as int))]
    } else {
        Seq::empty()
    }
}

/// What a decimal field adds to the argument list.
pub open spec fn opt_dec(cur: Decimal, def: Decimal, flag: Seq<char>) -> Seq<Seq<char>> {
    if cur != def {
        seq![flag_value_tok(flag, dec_text(cur))]
    } else {
        Seq::empty()
    }
}

/// What a string field adds to the argument list.
pub open spec fn opt_text(cur: Seq<char>, def: Seq<char>, flag: Seq<char>) -> Seq<Seq<char>> {
    if cur != def {
        seq![flag_value_tok(flag, cur)]
    } else {
        Seq::empty()
    }
}

/// A boolean configuration field left false contributes no token; set true it
/// contributes exactly its one fixed token.
pub proof fn lemma_bool_field_tokens(cond: bool, tok: Seq<char>)
    ensures
        !cond ==> opt_flag(cond, tok) == Seq::<Seq<char>>::empty(),
        cond ==> opt_flag(cond, tok) == seq![tok],
{
}

/// A numeric field left at its default contributes no token; any other value
/// contributes exactly one token holding the flag and the rendered value, and
/// the rendering is lossless: two values with the same token are equal.
pub proof fn lemma_numeric_field_tokens(cur: i32, def: i32, other: i32, flag: Seq<char>)
    ensures
        cur == def ==> opt_i32(cur, def, flag) == Seq::<Seq<char>>::empty(),
        cur != def ==> opt_i32(cur, def, flag) == seq![
            flag_value_tok(flag, int_text(cur as int)),
        ],
        int_text(cur as int) == int_text(other as int) ==> cur == other,
{
    if int_text(cur as int) == int_text(other as int) {
        crate::numeral::lemma_int_text_injective(cur as int, other as int);
    }
}

/// A decimal field left at its default contributes no token; any other value
/// contributes exactly one token holding the flag and the rendered value, and
/// the rendering is lossless: two well-formed values with the same token are
/// equal.
pub proof fn lemma_decimal_field_tokens(cur: Decimal, def: Decimal, other: Decimal, flag: Seq<char>)
    requires
        cur.wf(),
        other.wf(),
    ensures
        cur == def ==> opt_dec(cur, def, flag) == Seq::<Seq<char>>::empty(),
        cur != def ==> opt_dec(cur, def, flag) == seq![flag_value_tok(flag, dec_text(cur))],
        dec_text(cur) == dec_text(other) ==> cur == other,
{
    if dec_text(cur) == dec_text(other) {
        crate::decimal::lemma_dec_text_injective(cur, other);
    }
}

/// A string field left at its default contributes no token; any other value
/// contributes exactly one token holding the flag and the value itself.
pub proof fn lemma_text_field_tokens(cur: Seq<char>, def: Seq<char>, flag: Seq<char>)
    ensures
        cur == def ==> opt_text(cur, def, flag) == Seq::<Seq<char>>::empty(),
        cur != def ==> opt_text(cur, def, flag) == seq![flag_value_tok(flag, cur)],
{
}

/// Appends the fixed token `tok` exactly when `cond` holds.
pub fn push_flag(v: &mut Vec<String>, cond: bool, tok: &str)
    ensures
        toks(final(v)@) == toks(old(v)@) + opt_flag(cond, tok@),
{
    if cond {
        v.push(tok.to_owned());
        proof {
            assert(toks(v@) =~= toks(old(v)@) + opt_flag(cond, tok@));
        }
    } else {
        proof {
            assert(toks(v@) =~= toks(old(v)@) + opt_flag(cond, tok@));
        }
    }
}

/// Builds the single token `"-flag value"`.
fn join_flag_value(flag: &str, value: String) -> (r: String)
    ensures
        r@ == flag_value_tok(flag@, value@),
{
    flag.to_owned().concat(" ").concat(value.as_str())
}

/// Appends `"-flag cur"` exactly when `cur` differs from the default.
pub fn push_i32(v: &mut Vec<String>, cur: i32, def: i32, flag: &str)
    ensures
        toks(final(v)@) == toks(old(v)@) + opt_i32(cur, def, flag@),
{
    if cur != def {
        v.push(join_flag_value(flag, i32_to_text(cur)));
    }
    proof {
        assert(toks(v@) =~= toks(old(v)@) + opt_i32(cur, def, flag@));
    }
}

/// Appends `"-flag cur"` exactly when the decimal `cur` differs from the
/// default.
pub fn push_dec(v: &mut Vec<String>, cur: Decimal, def: Decimal, flag: &str)
    requires
        cur.wf(),
    ensures
        toks(final(v)@) == toks(old(v)@) + opt_dec(cur, def, flag@),
{
    if !(cur == def) {
        v.push(join_flag_value(flag, cur.to_text()));
    }
    proof {
        assert(toks(v@) =~= toks(old(v)@) + opt_dec(cur, def, flag@));
    }
}

/// Appends `"-flag cur"` exactly when the text `cur` differs from the
/// default.
pub fn push_text(v: &mut Vec<String>, cur: &str, def: &str, flag: &str)
    ensures
        toks(final(v)@) == toks(old(v)@) + opt_text(cur@, def@, flag@),
{
    let same = cur.to_owned() == def.to_owned();
    if !same {
        v.push(join_flag_value(flag, cur.to_owned()));
    }
    proof {
        assert(toks(v@) =~= toks(old(v)@) + opt_text(cur@, def@, flag@));
    }
}

} // verus!
