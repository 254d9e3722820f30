//! Signed fixed-point arithmetic with 16 fractional bits: the numeric base of
//! the renderer. A value `v: i64` stands for the real number `v / SCALE`.
//! Every operation saturates at the ends of the `i64` range instead of
//! wrapping, so all functions here are total and panic-free.
use vstd::prelude::*;

verus! {

/// One whole unit in fixed-point form (2^16).
pub const SCALE: i64 = 65536;

/// The mathematical constant pi in fixed-point form (rounded down).
pub const PI_FX: i64 = 205887;

/// One full turn (2 * PI_FX), the period of the sine routine.
pub const TAU_FX: i64 = 411774;

/// A quarter turn, used to derive cosine from sine.
pub const HALF_PI_FX: i64 = 102944;

/// Truncating division (rounds toward zero): the semantics of `/` on the
/// machine's signed integers, stated over mathematical integers.
pub open spec fn tdiv(a: int, b: int) -> int {
    if a >= 0 {
        a / b
    } else {
        -((-a) / b)
    }
}

/// Clamp an integer into a closed interval.
pub open spec fn spec_clamp(v: int, lo: int, hi: int) -> int {
    if v < lo {
        lo
    } else if v > hi {
        hi
    } else {
        v
    }
}

/// Absolute value over mathematical integers.
pub open spec fn absi(v: int) -> int {
    if v < 0 {
        -v
    } else {
        v
    }
}

/// Saturate an integer into the representable `i64` range.
pub open spec fn sat64(v: int) -> int {
    spec_clamp(v, i64::MIN as int, i64::MAX as int)
}

/// Fixed-point product: `a * b / SCALE`, truncated, then saturated.
pub open spec fn spec_fx_mul(a: int, b: int) -> int {
    sat64(tdiv(a * b, SCALE as int))
}

/// Division rounded toward zero, stated over the magnitudes so only
/// nonnegative division appears.
pub open spec fn mdiv(a: int, b: int) -> int {
    let m = absi(a) / absi(b);
    if (a < 0) == (b < 0) {
        m
    } else {
        -m
    }
}

/// Fixed-point quotient: `a * SCALE / b`, rounded toward zero, then
/// saturated.
pub open spec fn spec_fx_div(a: int, b: int) -> int {
    sat64(mdiv(a * (SCALE as int), b))
}

/// Saturating sum.
pub open spec fn spec_fx_add(a: int, b: int) -> int {
    sat64(a + b)
}

/// Saturating difference.
pub open spec fn spec_fx_sub(a: int, b: int) -> int {
    sat64(a - b)
}

/// Product by a plain integer factor, saturated.
pub open spec fn spec_fx_scale(a: int, k: int) -> int {
    sat64(a * k)
}

/// Linear interpolation from `a` to `b` by the fixed-point factor `t`
/// (`t == SCALE` is one whole step), built from the saturating primitives.
pub open spec fn spec_fx_lerp(a: int, b: int, t: int) -> int {
    spec_fx_add(a, spec_fx_mul(spec_fx_sub(b, a), t))
}

/// Clamp a fixed-point value into `[lo, hi]`.
pub fn fx_clamp(v: i64, lo: i64, hi: i64) -> (r: i64)
    requires
        lo <= hi,
    ensures
        r == spec_clamp(v as int, lo as int, hi as int),
{
    if v < lo {
        lo
    } else if v > hi {
        hi
    } else {
        v
    }
}

/// The product of two `i64` values fits in the double-width type.
pub proof fn lemma_i64_prod_fits(a: int, b: int)
    requires
        -0x8000000000000000 <= a <= 0x7fffffffffffffff,
        -0x8000000000000000 <= b <= 0x7fffffffffffffff,
    ensures
        -0x40000000000000000000000000000000 <= a * b
            <= 0x40000000000000000000000000000000,
{
    assert(-0x40000000000000000000000000000000 <= a * b
        <= 0x40000000000000000000000000000000) by (nonlinear_arith)
        requires
            -0x8000000000000000 <= a <= 0x7fffffffffffffff,
            -0x8000000000000000 <= b <= 0x7fffffffffffffff,
    ;
}

/// Saturate a double-width intermediate back into `i64`.
fn sat_narrow(q: i128) -> (r: i64)
    ensures
        r == sat64(q as int),
{
    if q > i64::MAX as i128 {
        i64::MAX
    } else if q < i64::MIN as i128 {
        i64::MIN
    } else {
        q as i64
    }
}

/// Fixed-point multiplication with saturation.
pub fn fx_mul(a: i64, b: i64) -> (r: i64)
    ensures
        r == spec_fx_mul(a as int, b as int),
{
    proof {
        lemma_i64_prod_fits(a as int, b as int);
    }
    let p: i128 = (a as i128) * (b as i128);
    let q: i128 = p / (SCALE as i128);
    sat_narrow(q)
}

/// Fixed-point division with saturation. The divisor must not be zero.
pub fn fx_div(a: i64, b: i64) -> (r: i64)
    requires
        b != 0,
    ensures
        r == spec_fx_div(a as int, b as int),
{
    proof {
        lemma_i64_prod_fits(a as int, SCALE as int);
    }
    let num: i128 = (a as i128) * (SCALE as i128);
    mdiv_i128(num, b as i128)
}

/// Truncating division of double-width intermediates, saturated into `i64`.
pub fn mdiv_i128(num: i128, den: i128) -> (r: i64)
    requires
        den != 0,
        num > i128::MIN,
        den > i128::MIN,
    ensures
        r == sat64(mdiv(num as int, den as int)),
{
    let neg = (num < 0) != (den < 0);
    let ua: i128 = if num < 0 {
        -num
    } else {
        num
    };
    let ub: i128 = if den < 0 {
        -den
    } else {
        den
    };
    proof {
        vstd::arithmetic::div_mod::lemma_div_pos_is_pos(ua as int, ub as int);
        vstd::arithmetic::div_mod::lemma_div_nonincreasing(ua as int, ub as int);
    }
    let uq: i128 = ua / ub;
    if neg {
        sat_narrow(-uq)
    } else {
        sat_narrow(uq)
    }
}

/// Saturating addition.
pub fn fx_add(a: i64, b: i64) -> (r: i64)
    ensures
        r == spec_fx_add(a as int, b as int),
{
    let s: i128 = (a as i128) + (b as i128);
    sat_narrow(s)
}

/// Saturating subtraction.
pub fn fx_sub(a: i64, b: i64) -> (r: i64)
    ensures
        r == spec_fx_sub(a as int, b as int),
{
    let s: i128 = (a as i128) - (b as i128);
    sat_narrow(s)
}

/// Saturating product by a plain integer factor.
pub fn fx_scale(a: i64, k: i64) -> (r: i64)
    ensures
        r == spec_fx_scale(a as int, k as int),
{
    proof {
        lemma_i64_prod_fits(a as int, k as int);
    }
    let p: i128 = (a as i128) * (k as i128);
    sat_narrow(p)
}

/// Linear interpolation from `a` to `b` by the fixed-point factor `t`.
pub fn fx_lerp(a: i64, b: i64, t: i64) -> (r: i64)
    ensures
        r == spec_fx_lerp(a as int, b as int, t as int),
{
    fx_add(a, fx_mul(fx_sub(b, a), t))
}

/// Saturated absolute value.
pub open spec fn spec_fx_abs(a: int) -> int {
    sat64(absi(a))
}

/// Absolute value, saturating at the top of the range.
pub fn fx_abs(a: i64) -> (r: i64)
    ensures
        r == spec_fx_abs(a as int),
{
    if a == i64::MIN {
        i64::MAX
    } else if a < 0 {
        -a
    } else {
        a
    }
}

/// The animation clock as a fixed-point value scaled down by `den`
/// (`time * SCALE / den`).
pub open spec fn spec_time_scaled(time: int, den: int) -> int {
    (time * (SCALE as int)) / den
}

/// The animation clock scaled into fixed-point time units.
pub fn time_scaled(time: u32, den: i64) -> (r: i64)
    requires
        den > 0,
    ensures
        r == spec_time_scaled(time as int, den as int),
{
    proof {
        assert(0 <= (time as int) * 65536 <= 0x100000000 * 65536) by (nonlinear_arith)
            requires
                0 <= time <= 0x100000000,
        ;
    }
    let p: i128 = (time as i128) * (SCALE as i128);
    proof {
        vstd::arithmetic::div_mod::lemma_div_pos_is_pos(p as int, den as int);
        vstd::arithmetic::div_mod::lemma_div_nonincreasing(p as int, den as int);
    }
    let q: i128 = p / (den as i128);
    q as i64
}

/// Euclidean remainder by the period of the sine routine.
pub fn mod_tau(x: i64) -> (m: i64)
    ensures
        m == (x as int) % (TAU_FX as int),
        0 <= m < TAU_FX,
{
    let r: i64 = x % TAU_FX;
    if r < 0 {
        proof {
            let q = tdiv(x as int, TAU_FX as int);
            vstd::arithmetic::div_mod::lemma_fundamental_div_mod(
                -(x as int),
                TAU_FX as int,
            );
            vstd::arithmetic::div_mod::lemma_fundamental_div_mod_converse(
                x as int,
                TAU_FX as int,
                -((-(x as int)) / (TAU_FX as int)) - 1,
                r + TAU_FX,
            );
        }
        r + TAU_FX
    } else {
        proof {
            if x < 0 {
                vstd::arithmetic::div_mod::lemma_fundamental_div_mod(
                    -(x as int),
                    TAU_FX as int,
                );
                vstd::arithmetic::div_mod::lemma_fundamental_div_mod_converse(
                    x as int,
                    TAU_FX as int,
                    -((-(x as int)) / (TAU_FX as int)),
                    0,
                );
            }
        }
        r
    }
}

/// The sine of an angle in `[0, PI_FX]`, by a rational approximation
/// (`16 t (pi - t) / (5 pi^2 - 4 t (pi - t))`), rounded to nearest and
/// clamped into `[0, SCALE]`. Rounding makes the endpoints exact: zero at
/// `0` and `PI_FX`, one whole unit at the quarter turn, so a zero angle
/// has an exact cosine and a zero rotation is neutral.
pub open spec fn spec_sin_half(t: int) -> int {
    let u = t * (PI_FX - t);
    let den = 5 * (PI_FX as int) * (PI_FX as int) - 4 * u;
    let q = (16 * u * (SCALE as int) + den / 2) / den;
    spec_clamp(q, 0, SCALE as int)
}

/// Sine over one full period: the second half-turn is the negated first.
pub open spec fn spec_fx_sin(x: int) -> int {
    let m = x % (TAU_FX as int);
    if m < PI_FX {
        spec_sin_half(m)
    } else {
        -spec_sin_half(m - (PI_FX as int))
    }
}

/// Cosine as the quarter-turn shift of sine.
pub open spec fn spec_fx_cos(x: int) -> int {
    spec_fx_sin(spec_fx_add(x, HALF_PI_FX as int))
}

fn sin_half(t: i64) -> (r: i64)
    requires
        0 <= t <= PI_FX,
    ensures
        r == spec_sin_half(t as int),
        0 <= r <= SCALE,
{
    proof {
        assert(0 <= (t as int) * ((PI_FX - t) as int) <= 42389456769) by (nonlinear_arith)
            requires
                0 <= t <= PI_FX,
        ;
    }
    let u: i128 = (t as i128) * ((PI_FX - t) as i128);
    proof {
        assert(5 * (PI_FX as int) * (PI_FX as int) == 211947283845) by (nonlinear_arith);
        assert(0 <= 16 * (u as int) * (SCALE as int) <= 44448567021010944) by (nonlinear_arith)
            requires
                0 <= u <= 42389456769,
        ;
    }
    let den: i128 = 5 * (PI_FX as i128) * (PI_FX as i128) - 4 * u;
    let num: i128 = 16 * u * (SCALE as i128) + den / 2;
    proof {
        vstd::arithmetic::div_mod::lemma_div_pos_is_pos(num as int, den as int);
        vstd::arithmetic::div_mod::lemma_div_nonincreasing(num as int, den as int);
    }
    let q: i128 = num / den;
    if q > SCALE as i128 {
        SCALE
    } else {
        q as i64
    }
}

/// Sine of a fixed-point angle (full period `TAU_FX`), in `[-SCALE, SCALE]`.
pub fn fx_sin(x: i64) -> (r: i64)
    ensures
        r == spec_fx_sin(x as int),
        -SCALE <= r <= SCALE,
{
    let m = mod_tau(x);
    if m < PI_FX {
        sin_half(m)
    } else {
        -sin_half(m - PI_FX)
    }
}

/// Cosine of a fixed-point angle, in `[-SCALE, SCALE]`.
pub fn fx_cos(x: i64) -> (r: i64)
    ensures
        r == spec_fx_cos(x as int),
        -SCALE <= r <= SCALE,
{
    fx_sin(fx_add(x, HALF_PI_FX))
}

/// The integer square root, defined by counting up; executable code meets it
/// by binary search.
pub open spec fn spec_isqrt(n: nat) -> nat
    decreases n,
{
    if n == 0 {
        0
    } else {
        let p = spec_isqrt((n - 1) as nat);
        if (p + 1) * (p + 1) <= n {
            p + 1
        } else {
            p
        }
    }
}

/// `spec_isqrt` indeed brackets its argument between consecutive squares.
pub proof fn lemma_isqrt_props(n: nat)
    ensures
        spec_isqrt(n) * spec_isqrt(n) <= n,
        n < (spec_isqrt(n) + 1) * (spec_isqrt(n) + 1),
    decreases n,
{
    if n == 0 {
        assert(spec_isqrt(n) == 0);
        assert(spec_isqrt(n) * spec_isqrt(n) <= n);
        assert(n < (spec_isqrt(n) + 1) * (spec_isqrt(n) + 1)) by (nonlinear_arith)
            requires
                n == 0,
                spec_isqrt(n) == 0,
        ;
    } else {
        lemma_isqrt_props((n - 1) as nat);
        let p = spec_isqrt((n - 1) as nat);
        if (p + 1) * (p + 1) <= n {
            assert(spec_isqrt(n) == p + 1);
            assert((p + 1) * (p + 1) + 1 <= (p + 2) * (p + 2)) by (nonlinear_arith)
                requires
                    p >= 0,
            ;
            assert(n < (p + 1) * (p + 1) + 1);
            assert(spec_isqrt(n) * spec_isqrt(n) <= n);
            assert(n < (spec_isqrt(n) + 1) * (spec_isqrt(n) + 1));
        } else {
            assert(spec_isqrt(n) == p);
            assert(spec_isqrt(n) * spec_isqrt(n) <= n);
            assert(n < (spec_isqrt(n) + 1) * (spec_isqrt(n) + 1));
        }
    }
}

/// The bracketing inequalities determine the square root uniquely.
proof fn lemma_isqrt_unique(n: nat, a: nat, b: nat)
    requires
        a * a <= n < (a + 1) * (a + 1),
        b * b <= n < (b + 1) * (b + 1),
    ensures
        a == b,
{
    assert(a == b) by (nonlinear_arith)
        requires
            a * a <= n < (a + 1) * (a + 1),
            b * b <= n < (b + 1) * (b + 1),
    ;
}

/// Integer square root by binary search.
pub fn isqrt(n: u128) -> (r: u64)
    requires
        n < 0x40000000000000000000000000000000,
    ensures
        r == spec_isqrt(n as nat),
{
    let mut lo: u128 = 0;
    let mut hi: u128 = 0x8000000000000000;
    proof {
        assert((0x8000000000000000 as int) * (0x8000000000000000 as int)
            == 0x40000000000000000000000000000000) by (nonlinear_arith);
    }
    while lo + 1 < hi
        invariant
            lo < hi <= 0x8000000000000000,
            (lo as int) * (lo as int) <= n,
            (n as int) < (hi as int) * (hi as int),
        decreases hi - lo,
    {
        let mid: u128 = lo + (hi - lo) / 2;
        proof {
            assert((mid as int) * (mid as int)
                <= (0x8000000000000000 as int) * (0x8000000000000000 as int))
                by (nonlinear_arith)
                requires
                    0 <= mid <= 0x8000000000000000,
            ;
        }
        if mid * mid <= n {
            lo = mid;
        } else {
            hi = mid;
        }
    }
    proof {
        lemma_isqrt_props(n as nat);
        lemma_isqrt_unique(n as nat, lo as nat, spec_isqrt(n as nat));
    }
    lo as u64
}

/// The fractional part of a fixed-point value, in `[0, SCALE)`.
pub fn fx_fract(x: i64) -> (f: i64)
    ensures
        f == (x as int) % (SCALE as int),
        0 <= f < SCALE,
{
    let r: i64 = x % SCALE;
    if r < 0 {
        proof {
            vstd::arithmetic::div_mod::lemma_fundamental_div_mod(
                -(x as int),
                SCALE as int,
            );
            vstd::arithmetic::div_mod::lemma_fundamental_div_mod_converse(
                x as int,
                SCALE as int,
                -((-(x as int)) / (SCALE as int)) - 1,
                r + SCALE,
            );
        }
        r + SCALE
    } else {
        proof {
            if x < 0 {
                vstd::arithmetic::div_mod::lemma_fundamental_div_mod(
                    -(x as int),
                    SCALE as int,
                );
                vstd::arithmetic::div_mod::lemma_fundamental_div_mod_converse(
                    x as int,
                    SCALE as int,
                    -((-(x as int)) / (SCALE as int)),
                    0,
                );
            }
        }
        r
    }
}

/// Floor of a fixed-point value as a whole number of units (the pixel index
/// of a screen coordinate).
pub fn fx_floor(a: i64) -> (r: i64)
    ensures
        r == (a as int) / (SCALE as int),
{
    let q: i64 = a / SCALE;
    let rem: i64 = a % SCALE;
    if a < 0 && rem != 0 {
        proof {
            vstd::arithmetic::div_mod::lemma_fundamental_div_mod(
                -(a as int),
                SCALE as int,
            );
            vstd::arithmetic::div_mod::lemma_fundamental_div_mod_converse(
                a as int,
                SCALE as int,
                -((-(a as int)) / (SCALE as int)) - 1,
                rem + SCALE,
            );
        }
        q - 1
    } else {
        proof {
            if a < 0 {
                vstd::arithmetic::div_mod::lemma_fundamental_div_mod(
                    -(a as int),
                    SCALE as int,
                );
                vstd::arithmetic::div_mod::lemma_fundamental_div_mod_converse(
                    a as int,
                    SCALE as int,
                    -((-(a as int)) / (SCALE as int)),
                    0,
                );
            }
        }
        q
    }
}

} // verus!
