//! Fixed-point scalars.
//!
//! Every analog magnitude handled by this library is a signed integer that
//! counts units of 2^-32: `ONE` stands for 1.0.  Devices report readings as
//! IEEE-754 single-precision bit patterns; `scalar_from_bits` turns such a
//! pattern into a scalar, rounding toward zero and limiting the magnitude to
//! `LIMIT`, which stands for 2^26.  A reading whose magnitude is at least
//! 2^-9 and below 2^26 is decoded exactly.

use vstd::prelude::*;
use vstd::arithmetic::power2::{
    lemma2_to64, lemma2_to64_rest, lemma_pow2_pos, lemma_pow2_strictly_increases, pow2,
};
use vstd::bits::{lemma_u64_shl_is_mul, lemma_u64_shr_is_div};

verus! {

/// The scalar that stands for 1.0.
pub const ONE: i64 = 0x1_0000_0000;

/// The largest magnitude a decoded reading or an accumulated total can have.
pub const LIMIT: i64 = 0x400_0000_0000_0000;

/// `v` limited to `[-LIMIT, LIMIT]`.
pub open spec fn limited(v: int) -> int {
    if v > LIMIT {
        LIMIT as int
    } else if v < -LIMIT {
        -LIMIT
    } else {
        v
    }
}

/// The absolute value of `v`.
pub open spec fn magnitude(v: int) -> int {
    if v < 0 {
        -v
    } else {
        v
    }
}

/// The biased exponent field of a single-precision bit pattern.
pub open spec fn exponent_field(bits: u32) -> int {
    (bits as int / 0x80_0000) % 0x100
}

/// The fraction field of a single-precision bit pattern.
pub open spec fn fraction_field(bits: u32) -> int {
    bits as int % 0x80_0000
}

/// The sign bit of a single-precision bit pattern.
pub open spec fn sign_field(bits: u32) -> bool {
    bits >= 0x8000_0000
}

/// The magnitude, as a scalar, of the number that a single-precision bit
/// pattern encodes.
///
/// A normal number with exponent field `e` and fraction field `f` is
/// `(2^23 + f) * 2^(e - 150)`, so in units of 2^-32 it is
/// `(2^23 + f) * 2^(e - 118)`; the quotient is rounded toward zero and the
/// result limited to `LIMIT`.  Infinities decode to `LIMIT`.  NaNs and
/// subnormal numbers (smaller than 2^-126) decode to zero.
pub open spec fn decoded_magnitude(bits: u32) -> int {
    let e = exponent_field(bits);
    let f = fraction_field(bits);
    let significand = 0x80_0000 + f;
    if e == 0xff {
        if f == 0 {
            LIMIT as int
        } else {
            0
        }
    } else if e == 0 {
        0
    } else if e >= 118 {
        limited(significand * pow2((e - 118) as nat))
    } else {
        significand / (pow2((118 - e) as nat) as int)
    }
}

/// The scalar that a single-precision bit pattern decodes to.
pub open spec fn decoded(bits: u32) -> int {
    if sign_field(bits) {
        -decoded_magnitude(bits)
    } else {
        decoded_magnitude(bits)
    }
}

/// Every decoded scalar lies within `[-LIMIT, LIMIT]`.
pub proof fn lemma_decoded_bounded(bits: u32)
    ensures
        -LIMIT <= decoded(bits) <= LIMIT,
{
    let e = exponent_field(bits);
    let f = fraction_field(bits);
    let significand = 0x80_0000 + f;
    if e != 0xff && e != 0 && e < 118 {
        let d = pow2((118 - e) as nat) as int;
        lemma_pow2_pos((118 - e) as nat);
        assert(0 <= significand / d <= significand) by (nonlinear_arith)
            requires
                0 <= significand,
                d >= 1,
        ;
    }
}

/// Decodes a single-precision bit pattern into a scalar.
pub fn scalar_from_bits(bits: u32) -> (r: i64)
    ensures
        r == decoded(bits),
        -LIMIT <= r <= LIMIT,
{
    let negative = bits >= 0x8000_0000;
    let e: u32 = (bits / 0x80_0000) % 0x100;
    let f: u32 = bits % 0x80_0000;
    let significand: u64 = 0x80_0000 + (f as u64);
    let mag: i64 = if e == 0xff {
        if f == 0 {
            LIMIT
        } else {
            0
        }
    } else if e == 0 {
        0
    } else if e >= 118 {
        let k: u32 = e - 118;
        if k >= 35 {
            proof {
                lemma2_to64_rest();
                if k > 35 {
                    lemma_pow2_strictly_increases(35, k as nat);
                }
                assert(significand * pow2(k as nat) >= LIMIT) by (nonlinear_arith)
                    requires
                        significand >= 0x80_0000,
                        pow2(k as nat) >= 0x8_0000_0000,
                        LIMIT == 0x400_0000_0000_0000,
                ;
            }
            LIMIT
        } else {
            proof {
                lemma2_to64_rest();
                if k < 34 {
                    lemma_pow2_strictly_increases(k as nat, 34);
                }
                lemma_pow2_pos(k as nat);
                assert(significand * pow2(k as nat) < 0x400_0000_0000_0000) by (nonlinear_arith)
                    requires
                        0 <= significand < 0x100_0000,
                        0 < pow2(k as nat) <= 0x4_0000_0000,
                ;
                lemma_u64_shl_is_mul(significand, k as u64);
            }
            (significand << (k as u64)) as i64
        }
    } else {
        let k: u32 = 118 - e;
        if k >= 24 {
            proof {
                lemma2_to64();
                if k > 24 {
                    lemma_pow2_strictly_increases(24, k as nat);
                }
                let d = pow2(k as nat) as int;
                assert(significand as int / d == 0) by (nonlinear_arith)
                    requires
                        0 <= significand < 0x100_0000,
                        d >= 0x100_0000,
                ;
            }
            0
        } else {
            proof {
                lemma_u64_shr_is_div(significand, k as u64);
            }
            (significand >> (k as u64)) as i64
        }
    };
    proof {
        lemma_decoded_bounded(bits);
    }
    if negative {
        -mag
    } else {
        mag
    }
}

/// Limits a wide sum to `[-LIMIT, LIMIT]`.
pub fn limit(v: i128) -> (r: i64)
    ensures
        r == limited(v as int),
{
    if v > (LIMIT as i128) {
        LIMIT
    } else if v < -(LIMIT as i128) {
        -LIMIT
    } else {
        v as i64
    }
}

/// `|positive| - |negative|`: the value of a pair of opposed inputs.
pub open spec fn opposed(positive: int, negative: int) -> int {
    magnitude(positive) - magnitude(negative)
}

/// Computes `|positive| - |negative|`.
pub fn opposed_value(positive: i64, negative: i64) -> (r: i64)
    requires
        i64::MIN < positive,
        i64::MIN < negative,
    ensures
        r == opposed(positive as int, negative as int),
{
    let p: i64 = if positive < 0 { -positive } else { positive };
    let n: i64 = if negative < 0 { -negative } else { negative };
    p - n
}

/// The largest integer whose square does not exceed `n`.
pub open spec fn integer_sqrt(n: nat) -> nat
    decreases n,
{
    if n == 0 {
        0
    } else {
        let r = integer_sqrt((n - 1) as nat);
        if (r + 1) * (r + 1) <= n {
            r + 1
        } else {
            r
        }
    }
}

/// The Euclidean length of `(x, y)`, rounded down to a whole scalar.
pub open spec fn length_of(x: int, y: int) -> int {
    integer_sqrt((x * x + y * y) as nat) as int
}

/// `integer_sqrt(n)` is the floor of the square root of `n`.
pub proof fn lemma_integer_sqrt(n: nat)
    ensures
        integer_sqrt(n) * integer_sqrt(n) <= n < (integer_sqrt(n) + 1) * (integer_sqrt(n) + 1),
    decreases n,
{
    let s = integer_sqrt(n) as int;
    if n == 0 {
        assert(s * s == 0 && (s + 1) * (s + 1) == 1) by (nonlinear_arith)
            requires
                s == 0,
        ;
    } else {
        lemma_integer_sqrt((n - 1) as nat);
        let r = integer_sqrt((n - 1) as nat) as int;
        assert((r + 1) * (r + 1) < (r + 2) * (r + 2)) by (nonlinear_arith)
            requires
                r >= 0,
        ;
        if (r + 1) * (r + 1) <= n {
            assert(s == r + 1);
            assert((s + 1) * (s + 1) == (r + 2) * (r + 2));
        } else {
            assert(s == r);
        }
    }
}

/// Only one natural number has the floor property of the square root of `n`.
pub proof fn lemma_integer_sqrt_unique(n: nat, r: nat)
    requires
        r * r <= n < (r + 1) * (r + 1),
    ensures
        r == integer_sqrt(n),
{
    lemma_integer_sqrt(n);
    let s = integer_sqrt(n);
    if r < s {
        assert((r + 1) * (r + 1) <= s * s) by (nonlinear_arith)
            requires
                r + 1 <= s,
        ;
    } else if s < r {
        assert((s + 1) * (s + 1) <= r * r) by (nonlinear_arith)
            requires
                s + 1 <= r,
        ;
    }
}

/// A length is never negative and never exceeds `|x| + |y|`.
pub proof fn lemma_length_bounded(x: int, y: int)
    ensures
        0 <= length_of(x, y) <= magnitude(x) + magnitude(y),
{
    assert(x * x + y * y >= 0) by (nonlinear_arith);
    let n = (x * x + y * y) as nat;
    lemma_integer_sqrt(n);
    let r = integer_sqrt(n) as int;
    let m = magnitude(x) + magnitude(y);
    assert(magnitude(x) * magnitude(x) == x * x) by (nonlinear_arith)
        requires
            magnitude(x) == x || magnitude(x) == -x,
    ;
    assert(magnitude(y) * magnitude(y) == y * y) by (nonlinear_arith)
        requires
            magnitude(y) == y || magnitude(y) == -y,
    ;
    assert(x * x + y * y <= m * m) by (nonlinear_arith)
        requires
            m == magnitude(x) + magnitude(y),
            magnitude(x) * magnitude(x) == x * x,
            magnitude(y) * magnitude(y) == y * y,
            magnitude(x) >= 0,
            magnitude(y) >= 0,
    ;
    if r > m {
        assert(r * r > m * m) by (nonlinear_arith)
            requires
                r > m,
                m >= 0,
        ;
    }
}

/// Computes the Euclidean length of `(x, y)`, rounded down.
pub fn length(x: i64, y: i64) -> (r: u64)
    ensures
        r == length_of(x as int, y as int),
        r * r <= x * x + y * y < (r + 1) * (r + 1),
{
    let ax: u128 = if x < 0 { (-(x as i128)) as u128 } else { x as u128 };
    let ay: u128 = if y < 0 { (-(y as i128)) as u128 } else { y as u128 };
    assert(ax * ax == x * x && ax * ax <= 0x4000_0000_0000_0000_0000_0000_0000_0000) by (nonlinear_arith)
        requires
            ax == x || ax == -x,
            0 <= ax <= 0x8000_0000_0000_0000,
    ;
    assert(ay * ay == y * y && ay * ay <= 0x4000_0000_0000_0000_0000_0000_0000_0000) by (nonlinear_arith)
        requires
            ay == y || ay == -y,
            0 <= ay <= 0x8000_0000_0000_0000,
    ;
    let n: u128 = ax * ax + ay * ay;
    let mut lo: u128 = 0;
    let mut hi: u128 = 0x1_0000_0000_0000_0000;
    while hi - lo > 1
        invariant
            lo < hi <= 0x1_0000_0000_0000_0000,
            lo * lo <= n < hi * hi,
        decreases hi - lo,
    {
        let mid: u128 = lo + (hi - lo) / 2;
        assert(mid * mid <= 0xffff_ffff_ffff_fffe_0000_0000_0000_0001) by (nonlinear_arith)
            requires
                0 <= mid <= 0xffff_ffff_ffff_ffff,
        ;
        if mid * mid <= n {
            lo = mid;
        } else {
            hi = mid;
        }
    }
    proof {
        lemma_integer_sqrt_unique(n as nat, lo as nat);
    }
    lo as u64
}

} // verus!
