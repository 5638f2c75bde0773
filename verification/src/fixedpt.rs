//! Signed 64-bit fixed-point numbers with 32 fractional bits, and their
//! decimal text: an optional sign, an integer part, and an optional
//! fractional part after a point.

use vstd::prelude::*;
use vstd::string::*;
use vstd::arithmetic::div_mod::*;
use vstd::arithmetic::mul::*;

verus! {

/// The raw integer of the fixed-point number one.
pub const ONE_RAW: i64 = 4294967296;

/// The largest integer part that the text of a number may have.
pub const WHOLE_LIMIT: u64 = 2147483648;

/// How many raw units make one: two to the power of 32.
pub open spec fn scale() -> nat {
    4294967296
}

/// A fixed-point scalar: the number it stands for is `self.0 / 2^32`.
#[derive(Debug, Default, Clone, Copy, PartialEq, Eq, Structural)]
pub struct Fixedpt(pub i64);

/// Why a text is not the text of a fixed-point number.
#[derive(Debug, Clone, Copy, PartialEq, Eq, Structural)]
pub enum ParseError {
    /// The text holds no character.
    Empty,
    /// The text is not a sign, digits, and optionally a point and digits.
    Malformed,
    /// The number does not fit into 64 bits.
    OutOfRange,
}

impl ParseError {
    /// The text of the error's message.
    pub open spec fn spec_message(self) -> Seq<char> {
        match self {
            ParseError::Empty => "should be a number, but is empty"@,
            ParseError::Malformed => "should be a number"@,
            ParseError::OutOfRange => "should be a number of smaller magnitude"@,
        }
    }

    /// The short text shown next to the field that was edited.
    pub fn message(self) -> (r: &'static str)
        ensures
            r@ == self.spec_message(),
    {
        match self {
            ParseError::Empty => "should be a number, but is empty",
            ParseError::Malformed => "should be a number",
            ParseError::OutOfRange => "should be a number of smaller magnitude",
        }
    }
}

/// Whether a character is one of `0` to `9`.
pub open spec fn is_digit(c: char) -> bool {
    '0' <= c && c <= '9'
}

/// The number that a digit stands for.
pub open spec fn digit_value(c: char) -> nat {
    (c as int - 48) as nat
}

/// The digit that stands for a number below ten.
pub open spec fn digit_char(d: nat) -> char {
    if d == 0 {
        '0'
    } else if d == 1 {
        '1'
    } else if d == 2 {
        '2'
    } else if d == 3 {
        '3'
    } else if d == 4 {
        '4'
    } else if d == 5 {
        '5'
    } else if d == 6 {
        '6'
    } else if d == 7 {
        '7'
    } else if d == 8 {
        '8'
    } else {
        '9'
    }
}

/// Whether every character is a digit.
pub open spec fn all_digits(s: Seq<char>) -> bool {
    forall|i: int| 0 <= i < s.len() ==> is_digit(#[trigger] s[i])
}

/// The number that a run of digits stands for, read as an integer.
pub open spec fn digits_value(s: Seq<char>) -> nat
    decreases s.len(),
{
    if s.len() == 0 {
        0
    } else {
        digits_value(s.drop_last()) * 10 + digit_value(s.last())
    }
}

/// Ten to the power of `n`.
pub open spec fn pow10(n: nat) -> nat
    decreases n,
{
    if n == 0 {
        1
    } else {
        10 * pow10((n - 1) as nat)
    }
}

/// The index after the longest run of digits that starts at `from`.
pub open spec fn digit_run(s: Seq<char>, from: int) -> int
    decreases s.len() - from,
{
    if 0 <= from < s.len() && is_digit(s[from]) {
        digit_run(s, from + 1)
    } else {
        from
    }
}

/// How many characters the sign takes: one for a leading `-` or `+`, else none.
pub open spec fn sign_len(s: Seq<char>) -> int {
    if s.len() > 0 && (s[0] == '-' || s[0] == '+') {
        1
    } else {
        0
    }
}

/// Whether the text starts with `-`.
pub open spec fn is_negative_text(s: Seq<char>) -> bool {
    s.len() > 0 && s[0] == '-'
}

/// The index after the integer part.
pub open spec fn int_end(s: Seq<char>) -> int {
    digit_run(s, sign_len(s))
}

/// The digits before the point.
pub open spec fn int_part(s: Seq<char>) -> Seq<char> {
    s.subrange(sign_len(s), int_end(s))
}

/// The digits after the point; empty where there is no point.
pub open spec fn frac_part(s: Seq<char>) -> Seq<char> {
    if int_end(s) < s.len() {
        s.subrange(int_end(s) + 1, s.len() as int)
    } else {
        Seq::empty()
    }
}

/// The decimal grammar: at most one sign, then one or more digits, then
/// either the end or a point followed by one or more digits and the end.
pub open spec fn well_formed(s: Seq<char>) -> bool {
    &&& sign_len(s) < int_end(s)
    &&& int_end(s) == s.len() || {
        &&& s[int_end(s)] == '.'
        &&& int_end(s) + 1 < s.len()
        &&& digit_run(s, int_end(s) + 1) == s.len()
    }
}

/// The raw magnitude that a well-formed text denotes: its integer part
/// scaled, plus its fractional part scaled and cut off below one raw unit.
pub open spec fn magnitude(s: Seq<char>) -> nat {
    digits_value(int_part(s)) * scale() + (digits_value(frac_part(s)) * scale()) / pow10(
        frac_part(s).len(),
    )
}

/// The largest raw magnitude that fits, by sign.
pub open spec fn max_magnitude(negative: bool) -> nat {
    if negative {
        9223372036854775808
    } else {
        9223372036854775807
    }
}

/// What parsing a text gives.
pub open spec fn spec_parse(s: Seq<char>) -> Result<Fixedpt, ParseError> {
    if s.len() == 0 {
        Err(ParseError::Empty)
    } else if !well_formed(s) {
        Err(ParseError::Malformed)
    } else if magnitude(s) > max_magnitude(is_negative_text(s)) {
        Err(ParseError::OutOfRange)
    } else if is_negative_text(s) {
        Ok(Fixedpt((-(magnitude(s) as int)) as i64))
    } else {
        Ok(Fixedpt(magnitude(s) as i64))
    }
}

/// The digits of a natural number, without leading zeros.
pub open spec fn int_digits(n: nat) -> Seq<char>
    decreases n,
{
    if n < 10 {
        seq![digit_char(n)]
    } else {
        int_digits(n / 10).push(digit_char(n % 10))
    }
}

/// The digits of the fraction `f / 2^32`, at least one and at most `fuel`,
/// ending where nothing is left.
pub open spec fn frac_digits(f: nat, fuel: nat) -> Seq<char>
    decreases fuel,
{
    let d = digit_char((f * 10) / scale());
    let rest = (f * 10) % scale();
    if fuel <= 1 || rest == 0 {
        seq![d]
    } else {
        seq![d] + frac_digits(rest, (fuel - 1) as nat)
    }
}

/// The raw magnitude of a number.
pub open spec fn abs_raw(x: Fixedpt) -> nat {
    if x.0 < 0 {
        (-(x.0 as int)) as nat
    } else {
        x.0 as nat
    }
}

/// The text of a number: `-` if it is below zero, the digits of its integer
/// part, a point, and the digits of its fraction.
pub open spec fn spec_to_text(x: Fixedpt) -> Seq<char> {
    let sign = if x.0 < 0 {
        seq!['-']
    } else {
        Seq::<char>::empty()
    };
    sign + int_digits(abs_raw(x) / scale()) + seq!['.'] + frac_digits(abs_raw(x) % scale(), 32)
}

/// `String::push` appends one character to the string.
pub assume_specification[ String::push ](s: &mut String, ch: char)
    ensures
        final(s)@ == old(s)@.push(ch),
;

/// A run of digits ends in range, holds digits only, and stops at a
/// character that is none.
pub proof fn lemma_digit_run_bounds(s: Seq<char>, from: int)
    requires
        0 <= from <= s.len(),
    ensures
        from <= digit_run(s, from) <= s.len(),
        forall|i: int| from <= i < digit_run(s, from) ==> is_digit(#[trigger] s[i]),
        digit_run(s, from) < s.len() ==> !is_digit(s[digit_run(s, from)]),
    decreases s.len() - from,
{
    if from < s.len() && is_digit(s[from]) {
        lemma_digit_run_bounds(s, from + 1);
    }
}

/// A run of digits that reaches `to` from `from` ends where the run from `to` ends.
pub proof fn lemma_digit_run_through(s: Seq<char>, from: int, to: int)
    requires
        0 <= from <= to <= s.len(),
        forall|i: int| from <= i < to ==> is_digit(#[trigger] s[i]),
    ensures
        digit_run(s, from) == digit_run(s, to),
    decreases to - from,
{
    if from < to {
        lemma_digit_run_through(s, from + 1, to);
    }
}

/// A well-formed text holds ASCII characters only.
pub proof fn lemma_well_formed_is_ascii(s: Seq<char>)
    requires
        well_formed(s),
    ensures
        vstd::utf8::is_ascii_chars(s),
{
    lemma_digit_run_bounds(s, sign_len(s));
    let b = int_end(s);
    if b < s.len() {
        lemma_digit_run_bounds(s, b + 1);
    }
    assert forall|i: int| 0 <= i < s.len() implies '\0' <= #[trigger] s[i] <= '\u{7f}' by {
        if i < sign_len(s) {
        } else if i < b {
            assert(is_digit(s[i]));
        } else if i == b {
        } else {
            assert(is_digit(s[i]));
        }
    }
}

/// Appending a digit to a run multiplies its value by ten and adds the digit.
pub proof fn lemma_digits_value_push(s: Seq<char>, from: int, to: int)
    requires
        0 <= from <= to < s.len(),
    ensures
        digits_value(s.subrange(from, to + 1)) == digits_value(s.subrange(from, to)) * 10
            + digit_value(s[to]),
{
    let t = s.subrange(from, to + 1);
    assert(t.drop_last() =~= s.subrange(from, to));
    assert(t.last() == s[to]);
}

/// A power of ten is positive.
pub proof fn lemma_pow10_positive(n: nat)
    ensures
        pow10(n) > 0,
    decreases n,
{
    if n > 0 {
        lemma_pow10_positive((n - 1) as nat);
    }
}

/// Putting a digit in front of a run adds the digit times a power of ten.
pub proof fn lemma_digits_value_prepend(c: char, t: Seq<char>)
    ensures
        digits_value(seq![c] + t) == digit_value(c) * pow10(t.len()) + digits_value(t),
    decreases t.len(),
{
    let s = seq![c] + t;
    let dv = digit_value(c) as int;
    assert(s.len() == t.len() + 1);
    assert(digits_value(s) == digits_value(s.drop_last()) * 10 + digit_value(s.last()));
    if t.len() == 0 {
        assert(s.drop_last() =~= Seq::<char>::empty());
        assert(s.last() == c);
        assert(digits_value(s.drop_last()) == 0);
        assert(digits_value(t) == 0);
        assert(pow10(t.len()) == 1);
        assert(dv * 1 == dv);
    } else {
        let u = t.drop_last();
        assert(s.drop_last() =~= seq![c] + u);
        assert(s.last() == t.last());
        lemma_digits_value_prepend(c, u);
        let p = pow10(u.len()) as int;
        assert(pow10(t.len()) == 10 * pow10((t.len() - 1) as nat));
        assert(pow10(t.len()) == 10 * p);
        assert(digits_value(t) == digits_value(u) * 10 + digit_value(t.last()));
        assert(digits_value(s.drop_last()) == dv * p + digits_value(u));
        assert((dv * p + digits_value(u)) * 10 == dv * (10 * p) + digits_value(u) * 10)
            by (nonlinear_arith);
    }
}

/// One step of reading a fraction from its last digit to its first: with
/// `g` the scaled value of the digits read so far, cut off, the scaled
/// value with the digit `d` in front, cut off, is `(d * 2^32 + g) / 10`.
pub proof fn lemma_fraction_step(d: nat, v: nat, p: nat)
    requires
        p > 0,
    ensures
        ((d * p + v) * scale()) / (10 * p) == (d * scale() + (v * scale()) / p) / 10,
{
    let s = scale() as int;
    let x = (d * p + v) * s;
    assert(x == (v * s) + (d * s) * p) by (nonlinear_arith)
        requires
            x == (d * p + v) * s,
    ;
    lemma_hoist_over_denominator(v * s, d * s, p);
    assert((v * s) / (p as int) + d * s == x / (p as int));
    assert(0 <= x) by (nonlinear_arith)
        requires
            x == (d * p + v) * s,
            s > 0,
    ;
    lemma_div_denominator(x, p as int, 10);
    assert(p * 10 == 10 * p);
}

impl Fixedpt {
    /// The raw scaled integer.
    pub open spec fn raw(self) -> int {
        self.0 as int
    }

    /// The number one.
    pub open spec fn one() -> Fixedpt {
        Fixedpt(4294967296)
    }

    /// Reads a number from its decimal text. The fraction is cut off below
    /// one raw unit, towards zero.
    pub fn from_str(s: &str) -> (r: Result<Fixedpt, ParseError>)
        ensures
            r == spec_parse(s@),
    {
        if !s.is_ascii() {
            proof {
                if well_formed(s@) {
                    lemma_well_formed_is_ascii(s@);
                }
            }
            return Err(ParseError::Malformed);
        }
        proof {
            is_ascii_spec_bytes(s);
        }
        let n = s.as_bytes().len();
        assert(n == s@.len());
        if n == 0 {
            return Err(ParseError::Empty);
        }
        let first = s.get_ascii(0);
        let negative = first == 45;
        let start: usize = if first == 45 || first == 43 {
            1
        } else {
            0
        };
        assert(start == sign_len(s@));
        assert(negative == is_negative_text(s@));
        let whole_end = scan_digits(s, start);
        if whole_end == start {
            return Err(ParseError::Malformed);
        }
        let mut frac_start = whole_end;
        if whole_end < n {
            if s.get_ascii(whole_end) != 46 {
                return Err(ParseError::Malformed);
            }
            if whole_end + 1 >= n {
                return Err(ParseError::Malformed);
            }
            frac_start = whole_end + 1;
            let frac_end = scan_digits(s, frac_start);
            if frac_end != n {
                return Err(ParseError::Malformed);
            }
        }
        assert(well_formed(s@));
        proof {
            lemma_digit_run_bounds(s@, start as int);
            if whole_end < n {
                lemma_digit_run_bounds(s@, frac_start as int);
            }
        }
        let whole = whole_value(s, start, whole_end);
        let frac = if whole_end < n {
            fraction_value(s, frac_start, n)
        } else {
            0
        };
        assert(frac == (digits_value(frac_part(s@)) * scale()) / pow10(frac_part(s@).len()));
        match whole {
            None => Err(ParseError::OutOfRange),
            Some(w) => {
                assert(magnitude(s@) == w * scale() + frac);
                assert(w * 4294967296 <= 2147483648 * 4294967296) by (nonlinear_arith)
                    requires
                        w <= 2147483648,
                ;
                if w == WHOLE_LIMIT {
                    if negative && frac == 0 {
                        Ok(Fixedpt(i64::MIN))
                    } else {
                        Err(ParseError::OutOfRange)
                    }
                } else {
                    assert(w * 4294967296 <= 2147483647 * 4294967296) by (nonlinear_arith)
                        requires
                            w <= 2147483647,
                    ;
                    let m: u64 = w * 4294967296 + frac;
                    if negative {
                        Ok(Fixedpt(-(m as i64)))
                    } else {
                        Ok(Fixedpt(m as i64))
                    }
                }
            },
        }
    }

    /// Writes the number as decimal text, exactly: the digits of the
    /// fraction go on until nothing is left, which takes at most 32.
    pub fn to_text(self) -> (r: String)
        ensures
            r@ == spec_to_text(self),
    {
        let mut out = String::new();
        let m: u64 = if self.0 == i64::MIN {
            out.push('-');
            9223372036854775808
        } else if self.0 < 0 {
            out.push('-');
            (-self.0) as u64
        } else {
            self.0 as u64
        };
        assert(m == abs_raw(self));
        push_int_digits(&mut out, m / 4294967296);
        out.push('.');
        push_frac_digits(&mut out, m % 4294967296, 32);
        assert(out@ =~= spec_to_text(self));
        out
    }
}

/// Whether a byte of ASCII text is a digit.
fn is_digit_byte(b: u8) -> (r: bool)
    ensures
        r == (48 <= b <= 57),
{
    48 <= b && b <= 57
}

/// Finds the end of the run of digits that starts at `from`.
fn scan_digits(s: &str, from: usize) -> (end: usize)
    requires
        s.is_ascii(),
        from <= s@.len(),
    ensures
        end == digit_run(s@, from as int),
        from <= end <= s@.len(),
{
    proof {
        is_ascii_spec_bytes(s);
    }
    let n = s.as_bytes().len();
    let mut i = from;
    while i < n
        invariant
            s.is_ascii(),
            n == s@.len(),
            from <= i <= n,
            forall|j: int| from <= j < i ==> is_digit(#[trigger] s@[j]),
        ensures
            from <= i <= n,
            forall|j: int| from <= j < i ==> is_digit(#[trigger] s@[j]),
            i == n || !is_digit(s@[i as int]),
        decreases n - i,
    {
        let b = s.get_ascii(i);
        assert('\0' <= s@[i as int] <= '\u{7f}');
        if !is_digit_byte(b) {
            break;
        }
        i += 1;
    }
    proof {
        lemma_digit_run_through(s@, from as int, i as int);
    }
    i
}

/// The value of the digits in `[from, to)`, or `None` where it is above the
/// largest integer part.
fn whole_value(s: &str, from: usize, to: usize) -> (r: Option<u64>)
    requires
        s.is_ascii(),
        from <= to <= s@.len(),
        forall|j: int| from <= j < to ==> is_digit(#[trigger] s@[j]),
    ensures
        match r {
            Some(w) => w == digits_value(s@.subrange(from as int, to as int)) && w
                <= WHOLE_LIMIT,
            None => digits_value(s@.subrange(from as int, to as int)) > WHOLE_LIMIT,
        },
{
    let mut acc: u64 = 0;
    let mut big = false;
    let mut k = from;
    assert(s@.subrange(from as int, from as int) =~= Seq::<char>::empty());
    while k < to
        invariant
            s.is_ascii(),
            from <= k <= to <= s@.len(),
            forall|j: int| from <= j < to ==> is_digit(#[trigger] s@[j]),
            !big ==> acc == digits_value(s@.subrange(from as int, k as int)) && acc
                <= WHOLE_LIMIT,
            big ==> digits_value(s@.subrange(from as int, k as int)) > WHOLE_LIMIT,
        decreases to - k,
    {
        let b = s.get_ascii(k);
        assert(is_digit(s@[k as int]));
        let d: u64 = (b - 48) as u64;
        assert(d == digit_value(s@[k as int]));
        proof {
            lemma_digits_value_push(s@, from as int, k as int);
        }
        if !big {
            let next: u64 = acc * 10 + d;
            if next > WHOLE_LIMIT {
                big = true;
            } else {
                acc = next;
            }
        }
        k += 1;
    }
    if big {
        None
    } else {
        Some(acc)
    }
}

/// The scaled value of the fraction whose digits are in `[from, to)`, cut off.
fn fraction_value(s: &str, from: usize, to: usize) -> (r: u64)
    requires
        s.is_ascii(),
        from <= to <= s@.len(),
        forall|j: int| from <= j < to ==> is_digit(#[trigger] s@[j]),
    ensures
        r == (digits_value(s@.subrange(from as int, to as int)) * scale()) / pow10(
            (to - from) as nat,
        ),
        r < scale(),
{
    let mut g: u64 = 0;
    let mut k = to;
    assert(s@.subrange(to as int, to as int) =~= Seq::<char>::empty());
    assert(digits_value(s@.subrange(to as int, to as int)) == 0);
    assert(0 * scale() / 1 == 0int);
    while k > from
        invariant
            s.is_ascii(),
            from <= k <= to <= s@.len(),
            forall|j: int| from <= j < to ==> is_digit(#[trigger] s@[j]),
            g == (digits_value(s@.subrange(k as int, to as int)) * scale()) / pow10(
                (to - k) as nat,
            ),
            g < scale(),
        decreases k,
    {
        k -= 1;
        let b = s.get_ascii(k);
        assert(is_digit(s@[k as int]));
        let d: u64 = (b - 48) as u64;
        assert(d == digit_value(s@[k as int]));
        let ghost tail = s@.subrange(k as int + 1, to as int);
        let ghost p = pow10((to - k - 1) as nat);
        proof {
            assert(s@.subrange(k as int, to as int) =~= seq![s@[k as int]] + tail);
            lemma_digits_value_prepend(s@[k as int], tail);
            lemma_pow10_positive((to - k - 1) as nat);
            lemma_fraction_step(d as nat, digits_value(tail), p);
            assert(pow10((to - k) as nat) == 10 * p);
        }
        g = (d * 4294967296 + g) / 10;
    }
    g
}

/// The digit of a number below ten.
fn digit_of(d: u64) -> (c: char)
    requires
        d < 10,
    ensures
        c == digit_char(d as nat),
{
    if d == 0 {
        '0'
    } else if d == 1 {
        '1'
    } else if d == 2 {
        '2'
    } else if d == 3 {
        '3'
    } else if d == 4 {
        '4'
    } else if d == 5 {
        '5'
    } else if d == 6 {
        '6'
    } else if d == 7 {
        '7'
    } else if d == 8 {
        '8'
    } else {
        '9'
    }
}

/// Appends the digits of `n`.
fn push_int_digits(out: &mut String, n: u64)
    ensures
        final(out)@ == old(out)@ + int_digits(n as nat),
    decreases n,
{
    if n >= 10 {
        push_int_digits(out, n / 10);
    }
    out.push(digit_of(n % 10));
    assert(out@ =~= old(out)@ + int_digits(n as nat));
}

/// Appends the digits of the fraction `f / 2^32`, at most `fuel` of them.
fn push_frac_digits(out: &mut String, f: u64, fuel: u8)
    requires
        f < scale(),
    ensures
        final(out)@ == old(out)@ + frac_digits(f as nat, fuel as nat),
    decreases fuel,
{
    let p: u64 = f * 10;
    let rest: u64 = p % 4294967296;
    out.push(digit_of(p / 4294967296));
    if fuel > 1 && rest != 0 {
        push_frac_digits(out, rest, fuel - 1);
    }
    assert(out@ =~= old(out)@ + frac_digits(f as nat, fuel as nat));
}

} // verus!
