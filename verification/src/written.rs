//! Numbers as they are written: a sign, digits, a fraction, an exponent.
//!
//! A numeric token is cut out of the text by the tokenizer. What number it
//! denotes is read here from the way it is written, digit by digit, so that
//! the value is exact down to the last millionth.

use crate::number::{Decimal, LIMIT};
use vstd::prelude::*;

verus! {

/// Whether `c` is one of the ten digits.
pub open spec fn is_digit(c: char) -> bool {
    48 <= c as u32 <= 57
}

/// The value of the digit `c`; zero where it is none.
pub open spec fn digit_of(c: char) -> nat {
    if is_digit(c) {
        (c as u32 - 48) as nat
    } else {
        0
    }
}

/// Ten to the power of `k`.
pub open spec fn pow10(k: nat) -> nat
    decreases k,
{
    if k == 0 {
        1
    } else {
        10 * pow10((k - 1) as nat)
    }
}

/// The number that the digits `s` denote.
pub open spec fn digits_value(s: Seq<char>) -> nat
    decreases s.len(),
{
    if s.len() == 0 {
        0
    } else {
        10 * digits_value(s.drop_last()) + digit_of(s.last())
    }
}

/// The end of the run of digits in `s` that begins at `from`.
pub open spec fn run_end(s: Seq<char>, from: int) -> int
    decreases s.len() - from,
{
    if 0 <= from < s.len() && is_digit(s[from]) {
        run_end(s, from + 1)
    } else {
        from
    }
}

/// Where the parts of a written number are: the digits before the point
/// from `whole` to `point`, and either no fraction and `fraction_end` equal
/// to `point`, or the digits of the fraction from `point + 1` to
/// `fraction_end`; and either no exponent and `exponent` equal to
/// `exponent_end`, or the digits of the exponent from `exponent` to
/// `exponent_end`.
pub struct Layout {
    pub whole: int,
    pub point: int,
    pub fraction_end: int,
    pub exponent: int,
    pub exponent_end: int,
}

/// Whether `c` is a sign.
pub open spec fn is_sign(c: char) -> bool {
    c == '+' || c == '-'
}

/// How a number is laid out at the start of `s`: an optional sign; digits;
/// a point with digits after it, if a digit follows the point; and `e` or
/// `E` with an optional sign and digits, if a digit follows.
pub open spec fn layout(s: Seq<char>) -> Layout {
    let whole: int = if s.len() > 0 && is_sign(s[0]) {
        1
    } else {
        0
    };
    let point = run_end(s, whole);
    let fraction_end = if point + 1 < s.len() && s[point] == '.' && is_digit(s[point + 1]) {
        run_end(s, point + 1)
    } else {
        point
    };
    let marked = fraction_end < s.len() && (s[fraction_end] == 'e' || s[fraction_end] == 'E');
    let signed = marked && fraction_end + 1 < s.len() && is_sign(s[fraction_end + 1]);
    let digits: int = if signed {
        fraction_end + 2
    } else {
        fraction_end + 1
    };
    if marked && digits < s.len() && is_digit(s[digits]) {
        Layout { whole, point, fraction_end, exponent: digits, exponent_end: run_end(s, digits) }
    } else {
        Layout { whole, point, fraction_end, exponent: fraction_end, exponent_end: fraction_end }
    }
}

/// The digits of a written number without its point.
pub open spec fn mantissa(s: Seq<char>) -> Seq<char> {
    let l = layout(s);
    if l.fraction_end > l.point {
        s.subrange(l.whole, l.point) + s.subrange(l.point + 1, l.fraction_end)
    } else {
        s.subrange(l.whole, l.point)
    }
}

/// How many digits of a written number stand after its point.
pub open spec fn fraction_digits(s: Seq<char>) -> int {
    let l = layout(s);
    if l.fraction_end > l.point {
        l.fraction_end - l.point - 1
    } else {
        0
    }
}

/// The exponent of a written number; zero where it has none.
pub open spec fn exponent(s: Seq<char>) -> int {
    let l = layout(s);
    let value = digits_value(s.subrange(l.exponent, l.exponent_end));
    if l.exponent > l.fraction_end && s[l.exponent - 1] == '-' {
        -value
    } else {
        value as int
    }
}

/// `n` times ten to the power of `k`, rounded toward zero.
pub open spec fn shifted(n: nat, k: int) -> int {
    if k >= 0 {
        (n * pow10(k as nat)) as int
    } else {
        n as int / pow10((-k) as nat) as int
    }
}

/// The number that is written at the start of `s`, times ten to the power of
/// `scale`: rounded toward zero, and with a magnitude above `LIMIT` clamped
/// to it. What follows the number in `s` is of no account.
pub open spec fn written_value(s: Seq<char>, scale: int) -> int {
    let magnitude = shifted(digits_value(mantissa(s)), shift_of(s, scale));
    let clamped = if magnitude > LIMIT {
        LIMIT as int
    } else {
        magnitude
    };
    if s.len() > 0 && s[0] == '-' {
        -clamped
    } else {
        clamped
    }
}

/// The number that is written at the start of `s`.
pub open spec fn decimal_written(s: Seq<char>) -> Decimal {
    Decimal { micros: written_value(s, 6) as i64 }
}

/// The hundredth part of the number that is written at the start of `s`.
pub open spec fn percent_written(s: Seq<char>) -> Decimal {
    Decimal { micros: written_value(s, 4) as i64 }
}

proof fn lemma_pow10_grows(a: nat, b: nat)
    requires
        a <= b,
    ensures
        1 <= pow10(a) <= pow10(b),
    decreases b,
{
    if a < b {
        lemma_pow10_grows(a, (b - 1) as nat);
    } else if a > 0 {
        lemma_pow10_grows((a - 1) as nat, (a - 1) as nat);
    }
}

proof fn lemma_pow10_19()
    ensures
        pow10(19) == 10_000_000_000_000_000_000,
        pow10(19) > LIMIT,
{
    reveal_with_fuel(pow10, 20);
}

/// A number of `n` digits is below ten to the power of `n`.
proof fn lemma_digits_bound(s: Seq<char>)
    ensures
        digits_value(s) < pow10(s.len()),
    decreases s.len(),
{
    if s.len() > 0 {
        lemma_digits_bound(s.drop_last());
    }
}

/// Dropping the last `m` digits of a number divides it by ten to the power
/// of `m`.
proof fn lemma_digits_drop(s: Seq<char>, m: nat)
    requires
        m <= s.len(),
    ensures
        digits_value(s) as int / pow10(m) as int == digits_value(s.take(s.len() - m)),
    decreases m,
{
    if m == 0 {
        assert(s.take(s.len() as int) == s);
        assert(pow10(0) == 1);
    } else {
        let shorter = s.drop_last();
        lemma_digits_drop(shorter, (m - 1) as nat);
        assert(shorter.take(shorter.len() - (m - 1)) == s.take(s.len() - m));
        let high = digits_value(shorter) as int;
        let low = digit_of(s.last()) as int;
        let p = pow10((m - 1) as nat) as int;
        lemma_pow10_grows(0, (m - 1) as nat);
        assert(digits_value(s) == 10 * high + low);
        assert(pow10(m) == 10 * p);
        assert((10 * high + low) / (10 * p) == high / p) by (nonlinear_arith)
            requires
                0 <= low < 10,
                0 <= high,
                p >= 1,
        ;
        assert(high / p == digits_value(s.take(s.len() - m)));
    }
}

/// A number with a digit other than zero, times ten to the 19th power or
/// more, is above the limit.
proof fn lemma_large_shift(n: nat, k: nat)
    requires
        n >= 1,
        k >= 19,
    ensures
        n * pow10(k) > LIMIT,
{
    lemma_pow10_19();
    lemma_pow10_grows(19, k);
    assert(n * pow10(k) >= pow10(k)) by (nonlinear_arith)
        requires
            n >= 1,
            pow10(k) >= 0,
    ;
}

/// The number `v`, or the limit where `v` is above it.
pub open spec fn capped(v: int) -> int {
    if v > LIMIT {
        LIMIT as int
    } else {
        v
    }
}

/// A run of digits ends within the text, and holds nothing but digits.
proof fn lemma_run(s: Seq<char>, from: int)
    requires
        0 <= from <= s.len(),
    ensures
        from <= run_end(s, from) <= s.len(),
        forall|j: int| from <= j < run_end(s, from) ==> is_digit(#[trigger] s[j]),
    decreases s.len() - from,
{
    if from < s.len() && is_digit(s[from]) {
        lemma_run(s, from + 1);
    }
}

/// The place in a written number of the digit that is the `j`th of its
/// mantissa.
pub open spec fn digit_place(l: Layout, j: int) -> int {
    if j < l.point - l.whole {
        l.whole + j
    } else {
        l.point + 1 + (j - (l.point - l.whole))
    }
}

/// The parts of a written number follow each other within the text, and
/// the mantissa is made of the digits before and after the point.
proof fn lemma_layout(s: Seq<char>)
    ensures
        0 <= layout(s).whole <= layout(s).point <= layout(s).fraction_end <= layout(s).exponent
            <= layout(s).exponent_end <= s.len(),
        layout(s).whole <= 1,
        layout(s).exponent <= layout(s).fraction_end + 2,
        mantissa(s).len() == layout(s).point - layout(s).whole + fraction_digits(s),
        0 <= fraction_digits(s) <= mantissa(s).len(),
        forall|j: int|
            0 <= j < mantissa(s).len() ==> is_digit(#[trigger] mantissa(s)[j]) && mantissa(s)[j]
                == s[digit_place(layout(s), j)] && 0 <= digit_place(layout(s), j) < s.len(),
        forall|j: int|
            layout(s).exponent <= j < layout(s).exponent_end ==> is_digit(#[trigger] s[j]),
{
    let l = layout(s);
    lemma_run(s, l.whole);
    if l.point + 1 < s.len() && s[l.point] == '.' && is_digit(s[l.point + 1]) {
        lemma_run(s, l.point + 1);
        lemma_run(s, l.point + 2);
    }
    let marked = l.fraction_end < s.len() && (s[l.fraction_end] == 'e' || s[l.fraction_end] == 'E');
    let signed = marked && l.fraction_end + 1 < s.len() && is_sign(s[l.fraction_end + 1]);
    let digits: int = if signed {
        l.fraction_end + 2
    } else {
        l.fraction_end + 1
    };
    if marked && digits < s.len() && is_digit(s[digits]) {
        lemma_run(s, digits);
    }
}

/// Tells whether `c` is one of the ten digits.
pub fn is_digit_char(c: char) -> (r: bool)
    ensures
        r == is_digit(c),
{
    let n: u32 = c as u32;
    48 <= n && n <= 57
}

/// Finds the end of the run of digits that begins at `from`.
fn digit_run(s: &str, from: usize, n: usize) -> (end: usize)
    requires
        n == s@.len(),
        from <= n,
    ensures
        end == run_end(s@, from as int),
        from <= end <= n,
{
    let mut i: usize = from;
    while i < n && is_digit_char(s.get_char(i))
        invariant
            from <= i <= n,
            n == s@.len(),
            run_end(s@, from as int) == run_end(s@, i as int),
        decreases n - i,
    {
        i += 1;
    }
    i
}

/// Where a number is laid out at the start of a text: the places as
/// `layout` gives them.
struct Places {
    whole: usize,
    point: usize,
    fraction_end: usize,
    exponent: usize,
    exponent_end: usize,
}

impl Places {
    spec fn layout(self) -> Layout {
        Layout {
            whole: self.whole as int,
            point: self.point as int,
            fraction_end: self.fraction_end as int,
            exponent: self.exponent as int,
            exponent_end: self.exponent_end as int,
        }
    }
}

/// Finds the parts of the number at the start of `s`.
fn find_places(s: &str, n: usize) -> (places: Places)
    requires
        n == s@.len(),
    ensures
        places.layout() == layout(s@),
{
    let whole: usize = if n > 0 && (s.get_char(0) == '+' || s.get_char(0) == '-') {
        1
    } else {
        0
    };
    let point: usize = digit_run(s, whole, n);
    let fraction_end: usize = if n > 0 && point < n - 1 && s.get_char(point) == '.'
        && is_digit_char(s.get_char(point + 1)) {
        digit_run(s, point + 1, n)
    } else {
        point
    };
    let marked: bool = fraction_end < n && (s.get_char(fraction_end) == 'e' || s.get_char(
        fraction_end,
    ) == 'E');
    let signed: bool = marked && fraction_end < n - 1 && (s.get_char(fraction_end + 1) == '+'
        || s.get_char(fraction_end + 1) == '-');
    if marked {
        let first: usize = if signed {
            fraction_end + 2
        } else {
            fraction_end + 1
        };
        if first < n && is_digit_char(s.get_char(first)) {
            let exponent_end: usize = digit_run(s, first, n);
            return Places { whole, point, fraction_end, exponent: first, exponent_end };
        }
    }
    Places { whole, point, fraction_end, exponent: fraction_end, exponent_end: fraction_end }
}

/// Adds the digit `c` at the end of a number that is held capped.
fn push_digit(acc: u64, c: char, Ghost(digits): Ghost<Seq<char>>) -> (r: u64)
    requires
        acc == capped(digits_value(digits) as int),
        is_digit(c),
    ensures
        r == capped(digits_value(digits.push(c)) as int),
{
    assert(digits.push(c).drop_last() == digits);
    let d: u64 = (c as u32 - 48) as u64;
    if acc >= LIMIT as u64 {
        LIMIT as u64
    } else {
        let next: u64 = acc * 10 + d;
        if next > LIMIT as u64 {
            LIMIT as u64
        } else {
            next
        }
    }
}

/// Reads the first `count` digits of the mantissa of the number at the
/// start of `s`.
fn read_digits(s: &str, places: &Places, count: usize) -> (r: u64)
    requires
        places.layout() == layout(s@),
        count <= mantissa(s@).len(),
    ensures
        r == capped(digits_value(mantissa(s@).take(count as int)) as int),
{
    proof {
        lemma_layout(s@);
    }
    let ghost all = mantissa(s@);
    let before: usize = places.point - places.whole;
    let mut acc: u64 = 0;
    let mut j: usize = 0;
    assert(all.take(0).len() == 0);
    while j < count
        invariant
            j <= count <= all.len(),
            all == mantissa(s@),
            places.layout() == layout(s@),
            before == places.point - places.whole,
            acc == capped(digits_value(all.take(j as int)) as int),
            forall|i: int|
                0 <= i < all.len() ==> is_digit(#[trigger] all[i]) && all[i] == s@[digit_place(
                    layout(s@),
                    i,
                )] && 0 <= digit_place(layout(s@), i) < s@.len(),
        decreases count - j,
    {
        assert(is_digit(all[j as int]));
        let c: char = if j < before {
            s.get_char(places.whole + j)
        } else {
            s.get_char(places.point + 1 + (j - before))
        };
        assert(c == all[j as int]);
        assert(all.take(j as int).push(c) == all.take(j + 1));
        acc = push_digit(acc, c, Ghost(all.take(j as int)));
        j += 1;
    }
    acc
}

/// The size from which on the exponents are not told apart. A number with
/// an exponent of this size or more is zero or beyond the limit.
pub const EXPONENT_CAP: u128 = 0x2_0000_0000_0000_0000;

/// Reads the size of the exponent of the number at the start of `s`.
fn read_exponent(s: &str, places: &Places) -> (r: u128)
    requires
        places.layout() == layout(s@),
    ensures
        r == if digits_value(
            s@.subrange(layout(s@).exponent, layout(s@).exponent_end),
        ) > EXPONENT_CAP {
            EXPONENT_CAP as int
        } else {
            digits_value(s@.subrange(layout(s@).exponent, layout(s@).exponent_end)) as int
        },
{
    proof {
        lemma_layout(s@);
    }
    let from: usize = places.exponent;
    let to: usize = places.exponent_end;
    let mut acc: u128 = 0;
    let mut i: usize = from;
    assert(s@.subrange(from as int, from as int).len() == 0);
    while i < to
        invariant
            from <= i <= to <= s@.len(),
            forall|j: int| from <= j < to ==> is_digit(#[trigger] s@[j]),
            acc == if digits_value(s@.subrange(from as int, i as int)) > EXPONENT_CAP {
                EXPONENT_CAP as int
            } else {
                digits_value(s@.subrange(from as int, i as int)) as int
            },
        decreases to - i,
    {
        let c: char = s.get_char(i);
        assert(is_digit(s@[i as int]));
        assert(s@.subrange(from as int, i + 1).drop_last() == s@.subrange(from as int, i as int));
        let d: u128 = (c as u32 - 48) as u128;
        if acc >= EXPONENT_CAP {
            acc = EXPONENT_CAP;
        } else {
            let next: u128 = acc * 10 + d;
            acc = if next > EXPONENT_CAP {
                EXPONENT_CAP
            } else {
                next
            };
        }
        i += 1;
    }
    acc
}

/// Multiplies a number that is held capped by ten to the power of `k`.
fn shift_up(acc: u64, k: u8, Ghost(n): Ghost<nat>) -> (r: u64)
    requires
        acc == capped(n as int),
        k < 19,
    ensures
        r == capped((n * pow10(k as nat)) as int),
{
    let mut r: u64 = acc;
    let mut t: u8 = 0;
    assert(pow10(0) == 1);
    assert(n * pow10(0) == n) by (nonlinear_arith)
        requires
            pow10(0) == 1,
    ;
    while t < k
        invariant
            t <= k < 19,
            r == capped((n * pow10(t as nat)) as int),
        decreases k - t,
    {
        assert(n * pow10((t + 1) as nat) == 10 * (n * pow10(t as nat))) by (nonlinear_arith)
            requires
                pow10((t + 1) as nat) == 10 * pow10(t as nat),
        ;
        if r >= LIMIT as u64 {
            r = LIMIT as u64;
        } else {
            let next: u64 = r * 10;
            r = if next > LIMIT as u64 {
                LIMIT as u64
            } else {
                next
            };
        }
        t += 1;
    }
    r
}

/// The power of ten by which the mantissa of the number at the start of `s`
/// is to be multiplied to give the number times ten to the power of `scale`.
pub open spec fn shift_of(s: Seq<char>, scale: int) -> int {
    scale + exponent(s) - fraction_digits(s)
}

/// Computes the shift of the number at the start of `s`, as far as it
/// matters: a shift of 19 or more stands for any such shift, and a shift
/// that drops all the digits for any such shift.
fn find_shift(s: &str, places: &Places, scale: u8) -> (k: i128)
    requires
        places.layout() == layout(s@),
        scale <= 6,
    ensures
        -0x4_0000_0000_0000_0000 < k < 0x4_0000_0000_0000_0000,
        0 <= k < 19 ==> k == shift_of(s@, scale as int),
        k >= 19 ==> shift_of(s@, scale as int) >= 19,
        k < 0 && -k < mantissa(s@).len() ==> k == shift_of(s@, scale as int),
        k < 0 && -k >= mantissa(s@).len() ==> -shift_of(s@, scale as int) >= mantissa(s@).len(),
{
    proof {
        lemma_layout(s@);
    }
    let size: u128 = read_exponent(s, places);
    let negative: bool = places.exponent > places.fraction_end && s.get_char(places.exponent - 1)
        == '-';
    let fraction: usize = if places.fraction_end > places.point {
        places.fraction_end - places.point - 1
    } else {
        0
    };
    if negative {
        scale as i128 - size as i128 - fraction as i128
    } else {
        scale as i128 + size as i128 - fraction as i128
    }
}

impl Decimal {
    /// Reads the number that is written at the start of `s`, times ten to
    /// the power of `scale`, in whole units.
    fn read(s: &str, scale: u8) -> (r: Decimal)
        requires
            scale <= 6,
        ensures
            r.micros == written_value(s@, scale as int),
    {
        let n: usize = s.unicode_len();
        let negative: bool = n > 0 && s.get_char(0) == '-';
        let places = find_places(s, n);
        let k: i128 = find_shift(s, &places, scale);
        proof {
            lemma_layout(s@);
        }
        let length: usize = places.point - places.whole + if places.fraction_end > places.point {
            places.fraction_end - places.point - 1
        } else {
            0
        };
        let ghost digits = mantissa(s@);
        let ghost value = digits_value(digits);
        let ghost shift = shift_of(s@, scale as int);
        proof {
            lemma_digits_bound(digits);
        }
        let magnitude: u64 = if k >= 0 {
            let all: u64 = read_digits(s, &places, length);
            assert(digits.take(length as int) == digits);
            if k >= 19 {
                proof {
                    if value >= 1 {
                        lemma_large_shift(value, shift as nat);
                    } else {
                        assert(value * pow10(shift as nat) == 0) by (nonlinear_arith)
                            requires
                                value == 0,
                        ;
                    }
                }
                if all == 0 {
                    0
                } else {
                    LIMIT as u64
                }
            } else {
                shift_up(all, k as u8, Ghost(value))
            }
        } else if -k >= length as i128 {
            proof {
                lemma_pow10_grows(length as nat, (-shift) as nat);
                vstd::arithmetic::div_mod::lemma_basic_div(
                    value as int,
                    pow10((-shift) as nat) as int,
                );
            }
            0
        } else {
            proof {
                lemma_digits_drop(digits, (-shift) as nat);
            }
            read_digits(s, &places, length - (-k) as usize)
        };
        assert(magnitude == capped(shifted(value, shift)));
        if negative {
            Decimal { micros: -(magnitude as i64) }
        } else {
            Decimal { micros: magnitude as i64 }
        }
    }

    /// Reads the number that is written at the start of `text`. What follows
    /// the number is of no account.
    pub fn from_written(text: &str) -> (r: Decimal)
        ensures
            r == decimal_written(text@),
            r.micros == written_value(text@, 6),
    {
        Decimal::read(text, 6)
    }

    /// Reads the number that is written at the start of `text` as a
    /// percentage, and returns its hundredth part.
    pub fn from_written_percent(text: &str) -> (r: Decimal)
        ensures
            r == percent_written(text@),
            r.micros == written_value(text@, 4),
    {
        Decimal::read(text, 4)
    }
}

} // verus!
