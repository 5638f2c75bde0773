//! What holds of the text of fixed-point numbers: the text written for a
//! number denotes it exactly and reads back as the same number, and the
//! number read from a text is within one raw unit of what the text denotes.

use vstd::prelude::*;
use vstd::arithmetic::div_mod::*;
use vstd::arithmetic::mul::*;
use crate::fixedpt::{
    abs_raw,
    all_digits,
    digit_char,
    digit_run,
    digit_value,
    digits_value,
    frac_digits,
    frac_part,
    int_digits,
    int_end,
    int_part,
    is_digit,
    is_negative_text,
    lemma_digit_run_through,
    lemma_digits_value_prepend,
    lemma_pow10_positive,
    magnitude,
    pow10,
    scale,
    sign_len,
    spec_parse,
    spec_to_text,
    well_formed,
    Fixedpt,
    ParseError,
};

verus! {

/// Two to the power of `n`.
spec fn two_to(n: nat) -> nat
    decreases n,
{
    if n == 0 {
        1
    } else {
        2 * two_to((n - 1) as nat)
    }
}

proof fn lemma_two_to_32()
    ensures
        two_to(32) == scale(),
{
    assert(two_to(4) == 16) by {
        reveal_with_fuel(two_to, 5);
    }
    assert(two_to(8) == 256) by {
        reveal_with_fuel(two_to, 5);
    }
    assert(two_to(12) == 4096) by {
        reveal_with_fuel(two_to, 5);
    }
    assert(two_to(16) == 65536) by {
        reveal_with_fuel(two_to, 5);
    }
    assert(two_to(20) == 1048576) by {
        reveal_with_fuel(two_to, 5);
    }
    assert(two_to(24) == 16777216) by {
        reveal_with_fuel(two_to, 5);
    }
    assert(two_to(28) == 268435456) by {
        reveal_with_fuel(two_to, 5);
    }
    assert(two_to(32) == 4294967296) by {
        reveal_with_fuel(two_to, 5);
    }
}

/// A digit's character is a digit, and stands for it.
pub proof fn lemma_digit_char(d: nat)
    requires
        d < 10,
    ensures
        is_digit(digit_char(d)),
        digit_value(digit_char(d)) == d,
        digit_char(d) != '-',
        digit_char(d) != '+',
        digit_char(d) != '.',
{
}

/// The digits written for a natural number are digits and stand for it.
pub proof fn lemma_int_digits(n: nat)
    ensures
        all_digits(int_digits(n)),
        int_digits(n).len() >= 1,
        digits_value(int_digits(n)) == n,
    decreases n,
{
    let s = int_digits(n);
    if n < 10 {
        lemma_digit_char(n);
        assert(s.drop_last() =~= Seq::<char>::empty());
        assert(digits_value(s.drop_last()) == 0);
        assert(s.last() == digit_char(n));
    } else {
        lemma_int_digits(n / 10);
        lemma_digit_char(n % 10);
        assert(s.drop_last() =~= int_digits(n / 10));
        assert(s.last() == digit_char(n % 10));
        assert forall|i: int| 0 <= i < s.len() implies is_digit(#[trigger] s[i]) by {
            if i < s.len() - 1 {
                assert(s[i] == int_digits(n / 10)[i]);
            }
        }
    }
}

/// Ten times a multiple of `unit`, taken modulo a multiple of twice `unit`,
/// is a multiple of twice `unit`.
proof fn lemma_rest_divisible(f: nat, unit: nat, half: nat)
    requires
        unit > 0,
        half > 0,
        f % unit == 0,
    ensures
        ((f * 10) % (2 * unit * half)) % (2 * unit) == 0,
{
    let m = (2 * unit * half) as int;
    let u2 = (2 * unit) as int;
    let p = (f * 10) as int;
    assert(m > 0) by (nonlinear_arith)
        requires
            m == 2 * unit * half,
            unit > 0,
            half > 0,
    ;
    let t = (f / unit) as int;
    lemma_fundamental_div_mod(f as int, unit as int);
    assert(f == unit * t);
    let q = p / m;
    let rest = p % m;
    lemma_fundamental_div_mod(p, m);
    assert(rest == (5 * t - half * q) * u2) by (nonlinear_arith)
        requires
            p == m * q + rest,
            p == f * 10,
            f == unit * t,
            m == 2 * unit * half,
            u2 == 2 * unit,
    ;
    lemma_mod_multiples_basic(5 * t - half * q, u2);
}

/// The digits written for a fraction are digits, and they denote the
/// fraction exactly once enough of them are written: with `fuel` digits to
/// go, a fraction that is a multiple of `unit / 2^32`, where `unit` times two
/// to the `fuel` is `2^32`.
proof fn lemma_frac_digits(f: nat, fuel: nat, unit: nat)
    requires
        f < scale(),
        fuel >= 1,
        unit * two_to(fuel) == scale(),
        f % unit == 0,
    ensures
        all_digits(frac_digits(f, fuel)),
        frac_digits(f, fuel).len() >= 1,
        digits_value(frac_digits(f, fuel)) * scale() == f * pow10(frac_digits(f, fuel).len()),
    decreases fuel,
{
    let s = scale() as int;
    let p = (f * 10) as int;
    let d = p / s;
    let rest = p % s;
    let fd = frac_digits(f, fuel);
    lemma_fundamental_div_mod(p, s);
    lemma_mod_pos_bound(p, s);
    assert(0 <= d < 10) by (nonlinear_arith)
        requires
            p == s * d + rest,
            0 <= rest < s,
            0 <= p < 10 * s,
            s > 0,
    ;
    lemma_digit_char(d as nat);
    let half = two_to((fuel - 1) as nat);
    assert(two_to(fuel) == 2 * half);
    assert(unit > 0 && half > 0) by (nonlinear_arith)
        requires
            unit * (2 * half) == 4294967296,
    ;
    assert(2 * unit * half == s) by (nonlinear_arith)
        requires
            unit * (2 * half) == s,
    ;
    lemma_rest_divisible(f, unit, half);
    assert(rest % ((2 * unit) as int) == 0);
    if fuel == 1 {
        assert(half == 1);
        assert(2 * unit == s) by (nonlinear_arith)
            requires
                2 * unit * half == s,
                half == 1,
        ;
        lemma_small_mod(rest as nat, s as nat);
        assert(rest == 0);
    }
    let dc = digit_char(d as nat);
    if fuel <= 1 || rest == 0 {
        assert(fd =~= seq![dc]);
        assert(fd.drop_last() =~= Seq::<char>::empty());
        assert(digits_value(fd.drop_last()) == 0);
        assert(fd.last() == dc);
        assert(digits_value(fd) == d);
        assert(pow10(1) == 10) by {
            reveal_with_fuel(pow10, 2);
        }
    } else {
        let fr = frac_digits(rest as nat, (fuel - 1) as nat);
        assert(fd =~= seq![dc] + fr);
        assert((2 * unit) * two_to((fuel - 1) as nat) == scale()) by (nonlinear_arith)
            requires
                2 * unit * half == s,
                half == two_to((fuel - 1) as nat),
                s == scale(),
        ;
        lemma_frac_digits(rest as nat, (fuel - 1) as nat, 2 * unit);
        lemma_digits_value_prepend(dc, fr);
        assert forall|i: int| 0 <= i < fd.len() implies is_digit(#[trigger] fd[i]) by {
            if i > 0 {
                assert(fd[i] == fr[i - 1]);
            }
        }
        let pr = pow10(fr.len()) as int;
        assert(pow10(fd.len()) == 10 * pr);
        let vr = digits_value(fr) as int;
        assert((d * pr + vr) * s == f * (10 * pr)) by (nonlinear_arith)
            requires
                vr * s == rest * pr,
                p == s * d + rest,
                p == f * 10,
        ;
    }
}

/// The parts of a text put together from a sign, digits, a point and digits.
proof fn lemma_parts_of_text(negative: bool, whole: Seq<char>, frac: Seq<char>)
    requires
        all_digits(whole),
        whole.len() >= 1,
        all_digits(frac),
        frac.len() >= 1,
    ensures
        ({
            let sign = if negative {
                seq!['-']
            } else {
                Seq::<char>::empty()
            };
            let t = sign + whole + seq!['.'] + frac;
            &&& well_formed(t)
            &&& t.len() > 0
            &&& is_negative_text(t) == negative
            &&& int_part(t) == whole
            &&& frac_part(t) == frac
        }),
{
    let sign = if negative {
        seq!['-']
    } else {
        Seq::<char>::empty()
    };
    let t = sign + whole + seq!['.'] + frac;
    let a = sign.len() as int;
    let b = a + whole.len();
    assert(t.len() == b + 1 + frac.len());
    assert forall|i: int| a <= i < b implies is_digit(#[trigger] t[i]) by {
        assert(t[i] == whole[i - a]);
    }
    assert(t[b] == '.');
    assert forall|i: int| b + 1 <= i < t.len() implies is_digit(#[trigger] t[i]) by {
        assert(t[i] == frac[i - b - 1]);
    }
    assert(is_digit(t[a]));
    if negative {
        assert(t[0] == '-');
    } else {
        assert(t[0] == whole[0]);
        assert(is_digit(t[0]));
    }
    assert(sign_len(t) == a);
    lemma_digit_run_through(t, a, b);
    assert(digit_run(t, b) == b);
    assert(int_end(t) == b);
    lemma_digit_run_through(t, b + 1, t.len() as int);
    assert(digit_run(t, t.len() as int) == t.len());
    assert(t.subrange(a, b) =~= whole);
    assert(t.subrange(b + 1, t.len() as int) =~= frac);
}

/// The text written for a number is well formed and denotes the number
/// exactly: its integer part is the number's, and its fraction, scaled, is
/// the number's fraction with nothing cut off.
pub proof fn lemma_text_is_exact(x: Fixedpt)
    ensures
        well_formed(spec_to_text(x)),
        is_negative_text(spec_to_text(x)) == (x.0 < 0),
        digits_value(int_part(spec_to_text(x))) == abs_raw(x) / scale(),
        digits_value(frac_part(spec_to_text(x))) * scale() == (abs_raw(x) % scale()) * pow10(
            frac_part(spec_to_text(x)).len(),
        ),
        magnitude(spec_to_text(x)) == abs_raw(x),
{
    let m = abs_raw(x);
    let whole = int_digits(m / scale());
    let frac = frac_digits(m % scale(), 32);
    lemma_int_digits(m / scale());
    lemma_two_to_32();
    lemma_mod_pos_bound(m as int, scale() as int);
    assert((m % scale()) % 1 == 0);
    lemma_frac_digits(m % scale(), 32, 1);
    lemma_parts_of_text(x.0 < 0, whole, frac);
    let t = spec_to_text(x);
    let p = pow10(frac.len());
    lemma_pow10_positive(frac.len());
    let f = m % scale();
    assert((digits_value(frac) * scale()) / p == f) by {
        assert(digits_value(frac) * scale() == p * f) by (nonlinear_arith)
            requires
                digits_value(frac) * scale() == f * p,
        ;
        lemma_div_multiples_vanish(f as int, p as int);
    }
    lemma_fundamental_div_mod(m as int, scale() as int);
    assert((m / scale()) * scale() == scale() * (m / scale())) by (nonlinear_arith);
}

/// Writing a number and reading the text gives the number back.
pub proof fn lemma_text_round_trip(x: Fixedpt)
    ensures
        spec_parse(spec_to_text(x)) == Ok::<Fixedpt, ParseError>(x),
{
    lemma_text_is_exact(x);
    let t = spec_to_text(x);
    lemma_int_digits(abs_raw(x) / scale());
    assert(t.len() > 0);
}

/// Reading a written text and writing the number again gives the same text.
pub proof fn lemma_written_text_is_kept(x: Fixedpt)
    ensures
        spec_parse(spec_to_text(x)) is Ok,
        spec_to_text(spec_parse(spec_to_text(x))->Ok_0) == spec_to_text(x),
{
    lemma_text_round_trip(x);
}

/// The integer that a well-formed text denotes when its point is left out:
/// the number it denotes is this over ten to the number of its fractional
/// digits, with its sign.
pub open spec fn unsigned_numerator(s: Seq<char>) -> nat {
    digits_value(int_part(s)) * pow10(frac_part(s).len()) + digits_value(frac_part(s))
}

/// The number read from a text is what the text denotes, cut off towards
/// zero below one raw unit: it is at most that, and less than one unit short.
pub proof fn lemma_parsed_is_within_one_unit(s: Seq<char>)
    requires
        spec_parse(s) is Ok,
    ensures
        ({
            let x = spec_parse(s)->Ok_0;
            let p = pow10(frac_part(s).len());
            &&& abs_raw(x) * p <= unsigned_numerator(s) * scale()
            &&& unsigned_numerator(s) * scale() < (abs_raw(x) + 1) * p
            &&& x.0 < 0 ==> is_negative_text(s)
            &&& x.0 > 0 ==> !is_negative_text(s)
        }),
{
    let x = spec_parse(s)->Ok_0;
    let m = magnitude(s) as int;
    assert(abs_raw(x) == m);
    let p = pow10(frac_part(s).len()) as int;
    lemma_pow10_positive(frac_part(s).len());
    let i = digits_value(int_part(s)) as int;
    let f = digits_value(frac_part(s)) as int;
    let sc = scale() as int;
    let q = (f * sc) / p;
    let r = (f * sc) % p;
    lemma_fundamental_div_mod(f * sc, p);
    lemma_mod_pos_bound(f * sc, p);
    assert(m == i * sc + q);
    assert(m * p <= (i * p + f) * sc && (i * p + f) * sc < (m + 1) * p) by (nonlinear_arith)
        requires
            m == i * sc + q,
            f * sc == p * q + r,
            0 <= r < p,
    ;
}

/// For every text that reads as a number, the text written for that number
/// denotes the same as the text that was read, within one raw unit: the
/// written text denotes no more in magnitude, less than `1 / 2^32` less, and
/// has no other sign.
pub proof fn lemma_text_of_parsed_denotes_the_same(s: Seq<char>)
    requires
        spec_parse(s) is Ok,
    ensures
        ({
            let t = spec_to_text(spec_parse(s)->Ok_0);
            let read = unsigned_numerator(s) * pow10(frac_part(t).len());
            let written = unsigned_numerator(t) * pow10(frac_part(s).len());
            &&& spec_parse(t) == spec_parse(s)
            &&& written <= read
            &&& (read - written) * scale() < pow10(frac_part(s).len()) * pow10(frac_part(t).len())
            &&& is_negative_text(t) ==> is_negative_text(s)
        }),
{
    let x = spec_parse(s)->Ok_0;
    let t = spec_to_text(x);
    lemma_text_round_trip(x);
    lemma_text_is_exact(x);
    lemma_parsed_is_within_one_unit(s);
    let m = abs_raw(x) as int;
    let sc = scale() as int;
    let ps = pow10(frac_part(s).len()) as int;
    let pt = pow10(frac_part(t).len()) as int;
    lemma_pow10_positive(frac_part(s).len());
    lemma_pow10_positive(frac_part(t).len());
    let ns = unsigned_numerator(s) as int;
    let nt = unsigned_numerator(t) as int;
    let it = digits_value(int_part(t)) as int;
    let ft = digits_value(frac_part(t)) as int;
    lemma_fundamental_div_mod(m, sc);
    assert(nt * sc == m * pt) by (nonlinear_arith)
        requires
            nt == it * pt + ft,
            it == m / sc,
            ft * sc == (m % sc) * pt,
            m == sc * (m / sc) + m % sc,
    ;
    assert(nt * ps <= ns * pt && (ns * pt - nt * ps) * sc < ps * pt) by (nonlinear_arith)
        requires
            nt * sc == m * pt,
            m * ps <= ns * sc,
            ns * sc < (m + 1) * ps,
            sc > 0,
            ps > 0,
            pt > 0,
    ;
}

} // verus!
