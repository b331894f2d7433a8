//! The synthetic-symbol namer: decimal numerals, the `$`-prefixed name each
//! counter value yields, and the proof that distinct counters give distinct
//! names.

use vstd::prelude::*;
use vstd::string::StringExecFns;

verus! {

/// The decimal digit character for `d` (meaningful for `d < 10`).
pub open spec fn digit_char(d: nat) -> char {
    if d == 0 {
        '0'
    } else if d == 1 {
        '1'
    } else if d == 2 {
        '2'
    } else if d == 3 {
        '3'
    } else if d == 4 {
        '4'
    } else if d == 5 {
        '5'
    } else if d == 6 {
        '6'
    } else if d == 7 {
        '7'
    } else if d == 8 {
        '8'
    } else {
        '9'
    }
}

/// The numeric value of a digit character (10 for non-digits).
pub open spec fn digit_val(c: char) -> nat {
    if c == '0' {
        0
    } else if c == '1' {
        1
    } else if c == '2' {
        2
    } else if c == '3' {
        3
    } else if c == '4' {
        4
    } else if c == '5' {
        5
    } else if c == '6' {
        6
    } else if c == '7' {
        7
    } else if c == '8' {
        8
    } else if c == '9' {
        9
    } else {
        10
    }
}

/// The decimal numeral of `n`, most significant digit first.
pub open spec fn spec_dec(n: nat) -> Seq<char>
    decreases n,
{
    if n < 10 {
        seq![digit_char(n)]
    } else {
        spec_dec(n / 10).push(digit_char(n % 10))
    }
}

/// The numeric value of a digit string.
pub open spec fn dec_val(s: Seq<char>) -> nat
    decreases s.len(),
{
    if s.len() == 0 {
        0
    } else {
        dec_val(s.drop_last()) * 10 + digit_val(s.last())
    }
}

/// The name the symbol namer returns for counter value `n`.
pub open spec fn spec_sym_name(n: nat) -> Seq<char> {
    seq!['$'] + spec_dec(n)
}

/// Reading a numeral back gives the number it was written from.
pub proof fn lemma_dec_roundtrip(n: nat)
    ensures
        dec_val(spec_dec(n)) == n,
        spec_dec(n).len() >= 1,
    decreases n,
{
    if n < 10 {
        assert(seq![digit_char(n)].drop_last() =~= Seq::<char>::empty());
        assert(seq![digit_char(n)].last() == digit_char(n));
        assert(digit_val(digit_char(n)) == n);
        assert(dec_val(spec_dec(n)) == dec_val(Seq::<char>::empty()) * 10 + digit_val(digit_char(n)));
    } else {
        lemma_dec_roundtrip(n / 10);
        assert(spec_dec(n).drop_last() =~= spec_dec(n / 10));
        assert(spec_dec(n).last() == digit_char(n % 10));
        assert(digit_val(digit_char(n % 10)) == n % 10);
        assert(n / 10 * 10 + n % 10 == n) by (nonlinear_arith);
        assert(dec_val(spec_dec(n)) == dec_val(spec_dec(n).drop_last()) * 10 + digit_val(spec_dec(n).last()));
        assert(dec_val(spec_dec(n)) == dec_val(spec_dec(n / 10)) * 10 + digit_val(digit_char(n % 10)));
    }
}

/// Decimal numerals are injective.
pub proof fn lemma_dec_injective(a: nat, b: nat)
    requires
        spec_dec(a) == spec_dec(b),
    ensures
        a == b,
{
    lemma_dec_roundtrip(a);
    lemma_dec_roundtrip(b);
}

/// Distinct counter values yield distinct symbol names.
pub proof fn lemma_sym_name_injective(a: nat, b: nat)
    requires
        a != b,
    ensures
        spec_sym_name(a) != spec_sym_name(b),
{
    if spec_sym_name(a) == spec_sym_name(b) {
        lemma_dec_roundtrip(a);
        lemma_dec_roundtrip(b);
        assert(spec_sym_name(a).skip(1) =~= spec_dec(a));
        assert(spec_sym_name(b).skip(1) =~= spec_dec(b));
        lemma_dec_injective(a, b);
    }
}

/// Append the decimal numeral of `n` to `out`.
pub fn push_decimal(n: u64, out: &mut String)
    ensures
        final(out)@ == old(out)@ + spec_dec(n as nat),
    decreases n,
{
    if n >= 10 {
        push_decimal(n / 10, out);
    }
    let d = n % 10;
    let ds: &str;
    if d == 0 {
        ds = "0";
        proof { reveal_strlit("0"); }
    } else if d == 1 {
        ds = "1";
        proof { reveal_strlit("1"); }
    } else if d == 2 {
        ds = "2";
        proof { reveal_strlit("2"); }
    } else if d == 3 {
        ds = "3";
        proof { reveal_strlit("3"); }
    } else if d == 4 {
        ds = "4";
        proof { reveal_strlit("4"); }
    } else if d == 5 {
        ds = "5";
        proof { reveal_strlit("5"); }
    } else if d == 6 {
        ds = "6";
        proof { reveal_strlit("6"); }
    } else if d == 7 {
        ds = "7";
        proof { reveal_strlit("7"); }
    } else if d == 8 {
        ds = "8";
        proof { reveal_strlit("8"); }
    } else {
        ds = "9";
        proof { reveal_strlit("9"); }
    }
    proof {
        assert(ds@ =~= seq![digit_char((n % 10) as nat)]);
        if n >= 10 {
            assert(spec_dec(n as nat) =~= spec_dec((n / 10) as nat).push(digit_char((n % 10) as nat)));
        } else {
            assert(spec_dec(n as nat) =~= seq![digit_char(n as nat)]);
        }
    }
    out.append(ds);
    proof {
        assert(final(out)@ =~= old(out)@ + spec_dec(n as nat));
    }
}

} // verus!
