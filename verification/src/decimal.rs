//! Decimal rendering of unsigned integers, as `{}` and `{:0w}` format them.
use vstd::prelude::*;

verus! {

/// The ASCII digit for `d` (meant for `d < 10`).
pub open spec fn digit_char(d: nat) -> char {
    (48 + d) as char
}

/// Whether `c` is one of the ASCII digits `0`..`9`.
pub open spec fn is_ascii_digit(c: char) -> bool {
    '0' <= c && c <= '9'
}

/// The shortest decimal spelling of `n` (no sign, no leading zeros, `"0"` for zero).
pub open spec fn decimal(n: nat) -> Seq<char>
    decreases n,
{
    if n < 10 {
        seq![digit_char(n)]
    } else {
        decimal(n / 10).push(digit_char(n % 10))
    }
}

/// The last `width` decimal digits of `n`, zero-padded on the left.
pub open spec fn fixed_digits(n: nat, width: nat) -> Seq<char>
    decreases width,
{
    if width == 0 {
        Seq::empty()
    } else {
        fixed_digits(n / 10, (width - 1) as nat).push(digit_char(n % 10))
    }
}

/// The number that a string of ASCII digits denotes.
pub open spec fn digits_value(s: Seq<char>) -> nat
    decreases s.len(),
{
    if s.len() == 0 {
        0
    } else {
        (digits_value(s.drop_last()) * 10 + (s.last() as nat - 48)) as nat
    }
}

/// `10` to the power `e`.
pub open spec fn pow10(e: nat) -> nat
    decreases e,
{
    if e == 0 {
        1
    } else {
        10 * pow10((e - 1) as nat)
    }
}

/// A fixed-width rendering has exactly `width` ASCII digits and denotes
/// `n` reduced modulo `10^width`.
pub proof fn lemma_fixed_digits(n: nat, width: nat)
    ensures
        fixed_digits(n, width).len() == width,
        forall|i: int| 0 <= i < width ==> is_ascii_digit(#[trigger] fixed_digits(n, width)[i]),
        digits_value(fixed_digits(n, width)) == n % pow10(width),
    decreases width,
{
    if width > 0 {
        let w1: nat = (width - 1) as nat;
        lemma_fixed_digits(n / 10, w1);
        let s = fixed_digits(n, width);
        assert(s.drop_last() =~= fixed_digits(n / 10, w1));
        assert(s.last() == digit_char(n % 10));
        lemma_pow10_positive(w1);
        lemma_mod_split(n, pow10(w1));
    }
}

proof fn lemma_pow10_positive(e: nat)
    ensures
        pow10(e) > 0,
    decreases e,
{
    if e > 0 {
        lemma_pow10_positive((e - 1) as nat);
    }
}

/// `n % (10 p) == (n / 10 % p) * 10 + n % 10`.
proof fn lemma_mod_split(n: nat, p: nat)
    requires
        p > 0,
    ensures
        n % (10 * p) == ((n / 10) % p) * 10 + n % 10,
{
    let q: nat = n / 10;
    let r: nat = n % 10;
    assert(n == 10 * q + r) by (nonlinear_arith)
        requires q == n / 10, r == n % 10;
    let q2: nat = q / p;
    let r2: nat = q % p;
    assert(q == p * q2 + r2 && 0 <= r2 < p) by (nonlinear_arith)
        requires q2 == q / p, r2 == q % p, p > 0;
    assert(n == (10 * p) * q2 + (r2 * 10 + r)) by (nonlinear_arith)
        requires n == 10 * q + r, q == p * q2 + r2;
    assert(0 <= r2 * 10 + r < 10 * p) by (nonlinear_arith)
        requires 0 <= r2 < p, 0 <= r < 10;
    vstd::arithmetic::div_mod::lemma_fundamental_div_mod_converse(
        n as int, (10 * p) as int, q2 as int, (r2 * 10 + r) as int);
}

/// A string of `width` ASCII digits is the fixed-width rendering of the
/// number it denotes, and that number is below `10^width`.
pub proof fn lemma_fixed_digits_of_value(s: Seq<char>, width: nat)
    requires
        s.len() == width,
        forall|i: int| 0 <= i < width ==> is_ascii_digit(#[trigger] s[i]),
    ensures
        fixed_digits(digits_value(s), width) == s,
        digits_value(s) < pow10(width),
    decreases width,
{
    if width > 0 {
        let w1: nat = (width - 1) as nat;
        let t = s.drop_last();
        assert forall|i: int| 0 <= i < w1 implies is_ascii_digit(#[trigger] t[i]) by {
            assert(t[i] == s[i]);
        }
        lemma_fixed_digits_of_value(t, w1);
        let d: nat = (s.last() as nat - 48) as nat;
        assert(is_ascii_digit(s[width - 1]));
        assert(d < 10);
        let v: nat = digits_value(s);
        assert(v == digits_value(t) * 10 + d);
        assert(v / 10 == digits_value(t) && v % 10 == d) by (nonlinear_arith)
            requires v == digits_value(t) * 10 + d, d < 10;
        assert(digit_char(d) == s.last());
        assert(fixed_digits(v, width) =~= s);
        assert(v < pow10(width)) by (nonlinear_arith)
            requires v == digits_value(t) * 10 + d, d < 10, digits_value(t) < pow10(w1),
                pow10(width) == 10 * pow10(w1);
    }
}

/// The spelling of `n` consists of ASCII digits and denotes `n`.
pub proof fn lemma_decimal(n: nat)
    ensures
        decimal(n).len() >= 1,
        forall|i: int| 0 <= i < decimal(n).len() ==> is_ascii_digit(#[trigger] decimal(n)[i]),
        digits_value(decimal(n)) == n,
    decreases n,
{
    if n >= 10 {
        lemma_decimal(n / 10);
        assert(decimal(n).drop_last() =~= decimal(n / 10));
        assert(decimal(n).last() == digit_char(n % 10));
        assert(digit_char(n % 10) as nat == 48 + n % 10);
        assert(n == (n / 10) * 10 + n % 10);
        assert(digits_value(decimal(n)) == digits_value(decimal(n / 10)) * 10 + n % 10);
    } else {
        assert(digit_char(n) as nat == 48 + n);
        assert(decimal(n).drop_last() =~= Seq::<char>::empty());
        assert(digits_value(Seq::<char>::empty()) == 0);
        assert(digits_value(decimal(n)) == n);
    }
}

/// A one-character string holding the digit `d`.
pub fn digit_str(d: u64) -> (s: &'static str)
    requires
        d < 10,
    ensures
        s@ == seq![digit_char(d as nat)],
{
    proof {
        reveal_strlit("0");
        reveal_strlit("1");
        reveal_strlit("2");
        reveal_strlit("3");
        reveal_strlit("4");
        reveal_strlit("5");
        reveal_strlit("6");
        reveal_strlit("7");
        reveal_strlit("8");
        reveal_strlit("9");
    }
    if d == 0 {
        "0"
    } else if d == 1 {
        "1"
    } else if d == 2 {
        "2"
    } else if d == 3 {
        "3"
    } else if d == 4 {
        "4"
    } else if d == 5 {
        "5"
    } else if d == 6 {
        "6"
    } else if d == 7 {
        "7"
    } else if d == 8 {
        "8"
    } else {
        "9"
    }
}

/// Appends the decimal spelling of `n` to `out`.
pub fn push_decimal(out: &mut String, n: u64)
    ensures
        final(out)@ == old(out)@ + decimal(n as nat),
    decreases n,
{
    if n >= 10 {
        push_decimal(out, n / 10);
    }
    out.append(digit_str(n % 10));
}

/// Appends the last `width` digits of `n`, zero-padded, to `out`.
pub fn push_fixed_digits(out: &mut String, n: u64, width: u64)
    ensures
        final(out)@ == old(out)@ + fixed_digits(n as nat, width as nat),
    decreases width,
{
    if width > 0 {
        push_fixed_digits(out, n / 10, width - 1);
        out.append(digit_str(n % 10));
    }
}

/// The decimal spelling of `n`, as `n.to_string()` gives it.
pub fn to_decimal(n: u64) -> (s: String)
    ensures
        s@ == decimal(n as nat),
{
    let mut s = String::new();
    push_decimal(&mut s, n);
    assert(s@ =~= decimal(n as nat));
    s
}

} // verus!
