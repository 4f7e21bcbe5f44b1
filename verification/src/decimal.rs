use vstd::prelude::*;
use crate::text::push_char;

verus! {

/// The ASCII digit for `d` (0 to 9).
pub open spec fn digit_char(d: nat) -> char {
    (d + 48) as char
}

/// Decimal digits of `n`, most significant first, without leading zeros.
pub open spec fn spec_digits(n: nat) -> Seq<char>
    decreases n,
{
    if n < 10 {
        seq![digit_char(n)]
    } else {
        spec_digits(n / 10).push(digit_char(n % 10))
    }
}

/// Decimal text of `x`, with a leading `-` when negative.
pub open spec fn spec_decimal(x: int) -> Seq<char> {
    if x < 0 {
        seq!['-'] + spec_digits((-x) as nat)
    } else {
        spec_digits(x as nat)
    }
}

/// Appends the decimal digits of `n` to `out`.
pub fn push_unsigned(n: u64, out: &mut String)
    ensures
        final(out)@ == old(out)@ + spec_digits(n as nat),
    decreases n,
{
    if n >= 10 {
        push_unsigned(n / 10, out);
    }
    let d: u8 = (n % 10) as u8;
    let c: char = (d + 48u8) as char;
    push_char(out, c);
}

/// Appends the decimal text of `x` to `out`.
pub fn push_decimal(x: i64, out: &mut String)
    ensures
        final(out)@ == old(out)@ + spec_decimal(x as int),
{
    if x < 0 {
        push_char(out, '-');
        let m: u64 = if x == i64::MIN { 9223372036854775808u64 } else { (-x) as u64 };
        push_unsigned(m, out);
    } else {
        push_unsigned(x as u64, out);
    }
}

/// The decimal text of `x`, as `x.to_string()` writes it.
pub fn decimal_text(x: i64) -> (res: String)
    ensures
        res@ == spec_decimal(x as int),
{
    let mut s = String::new();
    push_decimal(x, &mut s);
    s
}

/// Whether `c` is one of the characters `0` to `9`.
pub open spec fn is_digit_char(c: char) -> bool {
    '0' <= c <= '9'
}

/// The number that a string of decimal digits stands for, read in base 10
/// (most significant digit first).
pub open spec fn numeral_value(s: Seq<char>) -> int
    decreases s.len(),
{
    if s.len() == 0 {
        0
    } else {
        numeral_value(s.drop_last()) * 10 + (s.last() as int - 48)
    }
}

/// The decimal text written for `n` is its usual base-10 numeral: at least
/// one character, all digits, reading back as `n`, and without a leading
/// zero (`0` itself is the single digit `0`).
pub proof fn lemma_digits_numeral(n: nat)
    ensures
        spec_digits(n).len() >= 1,
        forall|i: int| 0 <= i < spec_digits(n).len() ==> is_digit_char(#[trigger] spec_digits(n)[i]),
        numeral_value(spec_digits(n)) == n,
        n == 0 ==> spec_digits(n) == seq!['0'],
        n > 0 ==> spec_digits(n)[0] != '0',
    decreases n,
{
    let s = spec_digits(n);
    if n < 10 {
        assert(s == seq![digit_char(n)]);
        assert(s.drop_last() =~= Seq::<char>::empty());
        assert(numeral_value(s.drop_last()) == 0);
    } else {
        let q: nat = n / 10;
        let r: nat = n % 10;
        lemma_digits_numeral(q);
        let t = spec_digits(q);
        assert(s == t.push(digit_char(r)));
        assert(s.drop_last() =~= t);
        assert(n == q * 10 + r) by (nonlinear_arith)
            requires
                q == n / 10,
                r == n % 10,
        ;
        assert(q > 0);
        assert(s[0] == t[0]);
        assert forall|i: int| 0 <= i < s.len() implies is_digit_char(#[trigger] s[i]) by {
            if i < t.len() {
                assert(s[i] == t[i]);
            }
        }
    }
}

/// The signed decimal text of `x`: for `x >= 0` the numeral of `x`; for
/// `x < 0` a `-` followed by the numeral of `-x`. The numeral reads back as
/// the number, is all digits and has no leading zero.
pub proof fn lemma_decimal_numeral(x: int)
    ensures
        x >= 0 ==> numeral_value(spec_decimal(x)) == x,
        x >= 0 ==> forall|i: int|
            0 <= i < spec_decimal(x).len() ==> is_digit_char(#[trigger] spec_decimal(x)[i]),
        x > 0 ==> spec_decimal(x)[0] != '0',
        x == 0 ==> spec_decimal(x) == seq!['0'],
        x < 0 ==> spec_decimal(x)[0] == '-',
        x < 0 ==> numeral_value(spec_decimal(x).drop_first()) == -x,
        x < 0 ==> spec_decimal(x)[1] != '0',
        x < 0 ==> forall|i: int|
            1 <= i < spec_decimal(x).len() ==> is_digit_char(#[trigger] spec_decimal(x)[i]),
        spec_decimal(x).len() >= 1,
{
    if x >= 0 {
        lemma_digits_numeral(x as nat);
    } else {
        let m: nat = (-x) as nat;
        lemma_digits_numeral(m);
        let t = spec_digits(m);
        let s = spec_decimal(x);
        assert(s == seq!['-'] + t);
        assert(s.drop_first() =~= t);
        assert(s[1] == t[0]);
        assert forall|i: int| 1 <= i < s.len() implies is_digit_char(#[trigger] s[i]) by {
            assert(s[i] == t[i - 1]);
        }
    }
}

} // verus!
