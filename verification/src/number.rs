//! Decimal numbers in fixed point: a value is a whole number of millionths.
//!
//! Style values are written as decimal numbers, and users of them compute
//! in floating point. Here they are held as integers, so that every
//! operation on them is exact and can be reasoned about.

use vstd::arithmetic::power2::{lemma2_to64, lemma2_to64_rest, lemma_pow2_strictly_increases, pow2};
use vstd::bits::{lemma_u64_shl_is_mul, lemma_u64_shr_is_div};
use vstd::prelude::*;

verus! {

/// How many millionths make one.
pub const MICROS_PER_UNIT: i64 = 1_000_000;

/// The largest magnitude, in millionths, that an operation of this module
/// produces: results beyond it are clamped to it.
pub const LIMIT: i64 = 1_000_000_000_000_000_000;

/// A decimal number, held as a count of millionths.
#[derive(Clone, Copy, Debug, PartialEq, Eq, Structural)]
pub struct Decimal {
    pub micros: i64,
}

impl View for Decimal {
    type V = Decimal;

    open spec fn view(&self) -> Decimal {
        *self
    }
}

/// `v`, brought into the range from `-LIMIT` to `LIMIT`.
pub open spec fn clamped(v: int) -> int {
    if v > LIMIT {
        LIMIT as int
    } else if v < -LIMIT {
        -LIMIT
    } else {
        v
    }
}

/// `n / d` rounded toward zero, for a positive `d`.
pub open spec fn quotient_toward_zero(n: int, d: int) -> int {
    if n >= 0 {
        n / d
    } else {
        -((-n) / d)
    }
}

/// The product of two counts of millionths, as a count of millionths:
/// rounded toward zero, and clamped.
#[verifier::opaque]
pub open spec fn product_micros(a: int, b: int) -> int {
    clamped(quotient_toward_zero(a * b, MICROS_PER_UNIT as int))
}

/// The biased exponent field of a single-precision bit pattern.
pub open spec fn f32_exponent_field(bits: u32) -> int {
    (bits as int / 0x80_0000) % 0x100
}

/// The fraction field of a single-precision bit pattern.
pub open spec fn f32_fraction_field(bits: u32) -> int {
    bits as int % 0x80_0000
}

/// The integer `s` such that the magnitude of the value is `s * 2^e`, where
/// `e` is `f32_exponent`.
pub open spec fn f32_significand(bits: u32) -> int {
    if f32_exponent_field(bits) == 0 {
        f32_fraction_field(bits)
    } else {
        f32_fraction_field(bits) + 0x80_0000
    }
}

/// The power of two by which the significand is scaled.
pub open spec fn f32_exponent(bits: u32) -> int {
    (if f32_exponent_field(bits) == 0 {
        1
    } else {
        f32_exponent_field(bits)
    }) - 150
}

/// The magnitude of the value with the given bit pattern, in millionths,
/// rounded to the nearest whole millionth (halves upward).
pub open spec fn f32_magnitude_micros(bits: u32) -> int {
    let scaled = f32_significand(bits) * MICROS_PER_UNIT;
    let e = f32_exponent(bits);
    if e >= 0 {
        scaled * pow2(e as nat)
    } else {
        (scaled + pow2((-e - 1) as nat)) / (pow2((-e) as nat) as int)
    }
}

/// The value with the given single-precision bit pattern, in millionths.
/// Magnitudes above `LIMIT`, the infinities and the NaNs among them, are
/// clamped to `LIMIT`.
pub open spec fn f32_micros(bits: u32) -> int {
    let magnitude = clamped(f32_magnitude_micros(bits));
    if bits >= 0x8000_0000u32 {
        -magnitude
    } else {
        magnitude
    }
}

/// The number that the single-precision value with the given bit pattern
/// stands for.
pub open spec fn decimal_of_f32(bits: u32) -> Decimal {
    Decimal { micros: f32_micros(bits) as i64 }
}

proof fn lemma_fields(bits: u32)
    ensures
        ((bits >> 23) & 0xff) == f32_exponent_field(bits),
        (bits & 0x7f_ffff) == f32_fraction_field(bits),
        ((bits >> 23) & 0xff) < 0x100,
        (bits & 0x7f_ffff) < 0x80_0000,
{
    assert(((bits >> 23) & 0xff) == (bits / 0x80_0000) % 0x100) by (bit_vector);
    assert((bits & 0x7f_ffff) == bits % 0x80_0000) by (bit_vector);
    assert(((bits >> 23) & 0xff) < 0x100) by (bit_vector);
    assert((bits & 0x7f_ffff) < 0x80_0000) by (bit_vector);
}

proof fn lemma_large_exponent(scaled: int, e: nat)
    requires
        scaled >= 0x80_0000 * MICROS_PER_UNIT,
        e >= 17,
    ensures
        scaled * pow2(e) > LIMIT,
{
    lemma2_to64();
    if e > 17 {
        lemma_pow2_strictly_increases(17, e);
    }
    assert(scaled * pow2(e) >= scaled * 0x2_0000) by (nonlinear_arith)
        requires
            scaled >= 0,
            pow2(e) >= 0x2_0000,
    ;
}

proof fn lemma_small_exponent(scaled: int, k: nat)
    requires
        0 <= scaled < 0x1000_0000_0000,
        k >= 46,
    ensures
        (scaled + pow2((k - 1) as nat)) / (pow2(k) as int) == 0,
{
    lemma2_to64();
    lemma2_to64_rest();
    if k > 46 {
        lemma_pow2_strictly_increases(45, (k - 1) as nat);
    }
    vstd::arithmetic::power2::lemma_pow2_unfold(k);
    let half = pow2((k - 1) as nat) as int;
    assert(pow2(k) == 2 * half);
    assert(half >= 0x2000_0000_0000);
    vstd::arithmetic::div_mod::lemma_basic_div(scaled + half, 2 * half);
}

impl Decimal {
    /// The whole number `n`.
    pub fn from_int(n: i32) -> (r: Decimal)
        ensures
            r.micros == n * MICROS_PER_UNIT,
    {
        Decimal { micros: (n as i64) * MICROS_PER_UNIT }
    }

    /// The number of `micros` millionths.
    pub fn from_micros(micros: i64) -> (r: Decimal)
        ensures
            r.micros == micros,
    {
        Decimal { micros }
    }

    /// The number that a single-precision value stands for, given by the
    /// value's bit pattern.
    pub fn from_f32_bits(bits: u32) -> (r: Decimal)
        ensures
            r == decimal_of_f32(bits),
            r.micros == f32_micros(bits),
    {
        let field: u32 = (bits >> 23) & 0xff;
        let fraction: u32 = bits & 0x7f_ffff;
        proof {
            lemma_fields(bits);
        }
        let significand: u64 = if field == 0 {
            fraction as u64
        } else {
            fraction as u64 + 0x80_0000
        };
        let power: u32 = if field == 0 {
            1
        } else {
            field
        };
        let scaled: u64 = significand * 1_000_000;
        let magnitude: u64 = if power >= 150 {
            let e: u32 = power - 150;
            if e >= 17 {
                proof {
                    lemma_large_exponent(scaled as int, e as nat);
                }
                LIMIT as u64
            } else {
                proof {
                    lemma2_to64();
                    assert(scaled * pow2(e as nat) <= 0x1000_0000_0000 * 0x1_0000) by {
                        if e < 16 {
                            lemma_pow2_strictly_increases(e as nat, 16);
                        }
                        assert(scaled * pow2(e as nat) <= 0x1000_0000_0000 * 0x1_0000)
                            by (nonlinear_arith)
                            requires
                                0 <= scaled <= 0x1000_0000_0000,
                                0 <= pow2(e as nat) <= 0x1_0000,
                        ;
                    }
                    lemma_u64_shl_is_mul(scaled, e as u64);
                }
                let shifted: u64 = scaled << (e as u64);
                if shifted > LIMIT as u64 {
                    LIMIT as u64
                } else {
                    shifted
                }
            }
        } else {
            let k: u32 = 150 - power;
            if k >= 46 {
                proof {
                    lemma_small_exponent(scaled as int, k as nat);
                }
                0
            } else {
                proof {
                    lemma2_to64();
                    lemma2_to64_rest();
                    if k - 1 < 44 {
                        lemma_pow2_strictly_increases((k - 1) as nat, 44);
                    }
                    lemma_u64_shl_is_mul(1, (k - 1) as u64);
                }
                let half: u64 = 1u64 << ((k - 1) as u64);
                proof {
                    lemma_u64_shr_is_div((scaled + half) as u64, k as u64);
                }
                (scaled + half) >> (k as u64)
            }
        };
        assert(magnitude == clamped(f32_magnitude_micros(bits)));
        if bits >= 0x8000_0000 {
            Decimal { micros: -(magnitude as i64) }
        } else {
            Decimal { micros: magnitude as i64 }
        }
    }

    /// The product of two numbers, rounded toward zero to a whole millionth
    /// and clamped to `LIMIT`.
    pub fn times(self, other: Decimal) -> (r: Decimal)
        ensures
            r.micros == product_micros(self.micros as int, other.micros as int),
    {
        reveal(product_micros);
        let a: i128 = self.micros as i128;
        let b: i128 = other.micros as i128;
        assert(-0x4000_0000_0000_0000_0000_0000_0000_0000 <= a * b
            <= 0x4000_0000_0000_0000_0000_0000_0000_0000) by (nonlinear_arith)
            requires
                -0x8000_0000_0000_0000 <= a <= 0x8000_0000_0000_0000,
                -0x8000_0000_0000_0000 <= b <= 0x8000_0000_0000_0000,
        ;
        let product: i128 = a * b;
        let quotient: i128 = if product >= 0 {
            product / 1_000_000
        } else {
            -((-product) / 1_000_000)
        };
        if quotient > LIMIT as i128 {
            Decimal { micros: LIMIT }
        } else if quotient < -(LIMIT as i128) {
            Decimal { micros: -LIMIT }
        } else {
            Decimal { micros: quotient as i64 }
        }
    }

    /// Whether the number is below zero.
    pub fn is_negative(self) -> (r: bool)
        ensures
            r == (self.micros < 0),
    {
        self.micros < 0
    }
}

} // verus!
