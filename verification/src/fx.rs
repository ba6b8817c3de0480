//! Saturating fixed-point scalars.
//!
//! A scalar is an `i64` holding `SCALE` steps per whole unit, so the raw
//! value `v` stands for the real number `v / SCALE`. Every operation
//! saturates its result to `[-MAXV, MAXV]`, so all operations are total:
//! no input makes them overflow or panic. Each executable operation is
//! proved to return exactly the value of its specification mirror.

use vstd::prelude::*;

verus! {

/// Number of raw steps in one whole unit: a raw value `v` stands for `v / SCALE`.
pub const SCALE: i64 = 65536;

/// Saturation bound on every raw arithmetic result (2^46).
pub const MAXV: i64 = 70368744177664;

/// Magnitude of an integer.
pub open spec fn abs_i(x: int) -> nat {
    if x >= 0 {
        x as nat
    } else {
        (-x) as nat
    }
}

/// Saturate to `[-MAXV, MAXV]`.
pub open spec fn clip(x: int) -> int {
    if x > MAXV as int {
        MAXV as int
    } else if x < -(MAXV as int) {
        -(MAXV as int)
    } else {
        x
    }
}

/// Division truncating toward zero; 0 when the divisor is 0.
pub open spec fn tdiv(a: int, b: int) -> int {
    if b == 0 {
        0
    } else if (a >= 0) == (b > 0) {
        (abs_i(a) / abs_i(b)) as int
    } else {
        -((abs_i(a) / abs_i(b)) as int)
    }
}

/// Integer square root: the greatest `r` with `r * r <= n`.
pub open spec fn isqrt(n: nat) -> nat
    decreases n,
{
    if n == 0 {
        0
    } else {
        let p = isqrt((n - 1) as nat);
        if (p + 1) * (p + 1) <= n {
            (p + 1) as nat
        } else {
            p
        }
    }
}

/// Saturating fixed-point addition.
pub open spec fn s_add(a: int, b: int) -> int {
    clip(a + b)
}

/// Saturating fixed-point subtraction.
pub open spec fn s_sub(a: int, b: int) -> int {
    clip(a - b)
}

/// Saturating fixed-point negation.
pub open spec fn s_neg(a: int) -> int {
    clip(-a)
}

/// Saturating fixed-point product: `(a * b) / SCALE`, truncated toward zero.
pub open spec fn s_mul(a: int, b: int) -> int {
    clip(tdiv(a * b, SCALE as int))
}

/// Saturating fixed-point quotient: `(a * SCALE) / b`, truncated toward zero;
/// 0 when the divisor is 0.
pub open spec fn s_div(a: int, b: int) -> int {
    if b == 0 {
        0
    } else {
        clip(tdiv(a * (SCALE as int), b))
    }
}

/// Fixed-point square root: `isqrt(a * SCALE)`, and 0 for nonpositive input.
pub open spec fn s_sqrt(a: int) -> int {
    if a <= 0 {
        0
    } else {
        isqrt((a * (SCALE as int)) as nat) as int
    }
}

/// A product is monotone in both factors.
pub proof fn lemma_mul_le(a: nat, b: nat, ca: nat, cb: nat)
    requires
        a <= ca,
        b <= cb,
    ensures
        a * b <= ca * cb,
{
    assert(a * b <= ca * cb) by (nonlinear_arith)
        requires
            a <= ca,
            b <= cb,
    ;
}

/// The magnitude of a product is the product of the magnitudes, and the
/// product's sign follows the factors' signs.
pub proof fn lemma_abs_mul(a: int, b: int)
    ensures
        abs_i(a * b) == abs_i(a) * abs_i(b),
        (a >= 0 && b >= 0) || (a <= 0 && b <= 0) ==> a * b >= 0,
        (a >= 0 && b <= 0) || (a <= 0 && b >= 0) ==> a * b <= 0,
{
    if a >= 0 && b >= 0 {
        assert(a * b >= 0) by (nonlinear_arith)
            requires
                a >= 0,
                b >= 0,
        ;
    } else if a >= 0 && b < 0 {
        assert(a * b <= 0 && -(a * b) == a * (-b)) by (nonlinear_arith)
            requires
                a >= 0,
                b < 0,
        ;
    } else if a < 0 && b >= 0 {
        assert(a * b <= 0 && -(a * b) == (-a) * b) by (nonlinear_arith)
            requires
                a < 0,
                b >= 0,
        ;
    } else {
        assert(a * b >= 0 && a * b == (-a) * (-b)) by (nonlinear_arith)
            requires
                a < 0,
                b < 0,
        ;
    }
}

/// `isqrt(n)` squared is at most `n`, and the next square is above `n`.
pub proof fn lemma_isqrt_bounds(n: nat)
    ensures
        isqrt(n) * isqrt(n) <= n,
        n < (isqrt(n) + 1) * (isqrt(n) + 1),
    decreases n,
{
    if n == 0 {
        let s = isqrt(n);
        assert(s == 0);
        assert((s + 1) * (s + 1) == 1) by (nonlinear_arith)
            requires
                s == 0,
        ;
    } else {
        lemma_isqrt_bounds((n - 1) as nat);
        let p = isqrt((n - 1) as nat);
        assert(p * p <= n - 1);
        assert(n - 1 < (p + 1) * (p + 1));
        if (p + 1) * (p + 1) <= n {
            assert(isqrt(n) == p + 1);
            assert(isqrt(n) * isqrt(n) <= n);
            assert((p + 1) * (p + 1) < (p + 2) * (p + 2)) by (nonlinear_arith);
            assert(n < (isqrt(n) + 1) * (isqrt(n) + 1));
        } else {
            assert(isqrt(n) == p);
            assert(isqrt(n) * isqrt(n) <= n);
            assert(n < (isqrt(n) + 1) * (isqrt(n) + 1));
        }
    }
}

/// Any `r` with `r^2 <= n < (r+1)^2` equals `isqrt(n)`.
pub proof fn lemma_isqrt_unique(n: nat, r: nat)
    requires
        r * r <= n,
        n < (r + 1) * (r + 1),
    ensures
        r == isqrt(n),
{
    lemma_isqrt_bounds(n);
    let s = isqrt(n);
    if r < s {
        assert(false) by (nonlinear_arith)
            requires
                r < s,
                s * s <= n,
                n < (r + 1) * (r + 1),
        ;
    }
    if s < r {
        assert(false) by (nonlinear_arith)
            requires
                s < r,
                r * r <= n,
                n < (s + 1) * (s + 1),
        ;
    }
}

/// Saturation stays within its bounds.
pub proof fn lemma_clip_bounds(x: int)
    ensures
        -(MAXV as int) <= clip(x) <= MAXV as int,
        -(MAXV as int) <= x <= MAXV as int ==> clip(x) == x,
{
}

/// Saturation commutes with negation.
pub proof fn lemma_clip_neg(x: int)
    ensures
        clip(-x) == -clip(x),
{
}

/// Saturation is monotone.
pub proof fn lemma_clip_mono(x: int, y: int)
    requires
        x <= y,
    ensures
        clip(x) <= clip(y),
{
}

/// Truncating division commutes with negation of the dividend.
pub proof fn lemma_tdiv_neg(a: int, b: int)
    requires
        b > 0,
    ensures
        tdiv(-a, b) == -tdiv(a, b),
{
    assert(abs_i(-a) == abs_i(a));
}

/// Truncating division by a positive divisor is monotone in the dividend.
pub proof fn lemma_tdiv_mono(x: int, y: int, b: int)
    requires
        x <= y,
        b > 0,
    ensures
        tdiv(x, b) <= tdiv(y, b),
{
    if x >= 0 {
        vstd::arithmetic::div_mod::lemma_div_is_ordered(abs_i(x) as int, abs_i(y) as int, b);
    } else if y >= 0 {
        // a nonpositive quotient never exceeds a nonnegative one
    } else {
        vstd::arithmetic::div_mod::lemma_div_is_ordered(abs_i(y) as int, abs_i(x) as int, b);
    }
}

/// A saturating product with a negated bounded left factor is the negated product.
pub proof fn lemma_smul_neg_left(x: int, y: int)
    requires
        -(MAXV as int) <= x <= MAXV as int,
    ensures
        s_mul(s_neg(x), y) == s_neg(s_mul(x, y)),
{
    assert(s_neg(x) == -x);
    assert((-x) * y == -(x * y)) by (nonlinear_arith);
    lemma_tdiv_neg(x * y, SCALE as int);
    lemma_clip_neg(tdiv(x * y, SCALE as int));
}

/// A saturating product with a negated bounded right factor is the negated product.
pub proof fn lemma_smul_neg_right(x: int, y: int)
    requires
        -(MAXV as int) <= y <= MAXV as int,
    ensures
        s_mul(x, s_neg(y)) == s_neg(s_mul(x, y)),
{
    assert(s_neg(y) == -y);
    assert(x * (-y) == -(x * y)) by (nonlinear_arith);
    lemma_tdiv_neg(x * y, SCALE as int);
    lemma_clip_neg(tdiv(x * y, SCALE as int));
}

/// The saturating product is commutative.
pub proof fn lemma_smul_comm(x: int, y: int)
    ensures
        s_mul(x, y) == s_mul(y, x),
{
    assert(x * y == y * x) by (nonlinear_arith);
}

/// A saturating sum of negated bounded terms is the negated saturating sum.
pub proof fn lemma_sadd_neg(u: int, v: int)
    requires
        -(MAXV as int) <= u <= MAXV as int,
        -(MAXV as int) <= v <= MAXV as int,
    ensures
        s_add(s_neg(u), s_neg(v)) == s_neg(s_add(u, v)),
{
    lemma_clip_neg(u + v);
    lemma_clip_bounds(u + v);
}

/// A saturating square is nonnegative.
pub proof fn lemma_square_nonneg(x: int)
    ensures
        s_mul(x, x) >= 0,
{
    assert(x * x >= 0) by (nonlinear_arith);
}

/// Magnitude of an `i64`, exactly.
fn mag64(a: i64) -> (r: u64)
    ensures
        r as nat == abs_i(a as int),
{
    if a >= 0 {
        a as u64
    } else {
        (-(a as i128)) as u64
    }
}

/// Rebuild a signed result from a sign and a magnitude, saturating to `MAXV`.
fn signed_clip(neg: bool, m: u128) -> (r: i64)
    ensures
        r as int == clip(
            if neg {
                -(m as int)
            } else {
                m as int
            },
        ),
{
    let mm: u128 = if m > MAXV as u128 {
        MAXV as u128
    } else {
        m
    };
    if neg {
        -(mm as i64)
    } else {
        mm as i64
    }
}

/// Saturating addition.
pub fn fx_add(a: i64, b: i64) -> (r: i64)
    ensures
        r as int == s_add(a as int, b as int),
{
    let s: i128 = a as i128 + b as i128;
    if s > MAXV as i128 {
        MAXV
    } else if s < -(MAXV as i128) {
        -MAXV
    } else {
        s as i64
    }
}

/// Saturating subtraction.
pub fn fx_sub(a: i64, b: i64) -> (r: i64)
    ensures
        r as int == s_sub(a as int, b as int),
{
    let s: i128 = a as i128 - b as i128;
    if s > MAXV as i128 {
        MAXV
    } else if s < -(MAXV as i128) {
        -MAXV
    } else {
        s as i64
    }
}

/// Saturating negation.
pub fn fx_neg(a: i64) -> (r: i64)
    ensures
        r as int == s_neg(a as int),
{
    let s: i128 = -(a as i128);
    if s > MAXV as i128 {
        MAXV
    } else if s < -(MAXV as i128) {
        -MAXV
    } else {
        s as i64
    }
}

/// Saturating fixed-point multiplication.
pub fn fx_mul(a: i64, b: i64) -> (r: i64)
    ensures
        r as int == s_mul(a as int, b as int),
{
    let neg: bool = (a < 0) != (b < 0);
    let ma: u64 = mag64(a);
    let mb: u64 = mag64(b);
    proof {
        lemma_mul_le(ma as nat, mb as nat, u64::MAX as nat, u64::MAX as nat);
        lemma_abs_mul(a as int, b as int);
    }
    let p: u128 = (ma as u128) * (mb as u128);
    let q: u128 = p / (SCALE as u128);
    signed_clip(neg, q)
}

/// Saturating fixed-point division; returns 0 when the divisor is 0.
pub fn fx_div(a: i64, b: i64) -> (r: i64)
    ensures
        r as int == s_div(a as int, b as int),
{
    if b == 0 {
        return 0;
    }
    let neg: bool = (a < 0) != (b < 0);
    let ma: u64 = mag64(a);
    let mb: u64 = mag64(b);
    proof {
        lemma_mul_le(ma as nat, SCALE as nat, u64::MAX as nat, SCALE as nat);
        lemma_abs_mul(a as int, SCALE as int);
    }
    let num: u128 = (ma as u128) * (SCALE as u128);
    let q: u128 = num / (mb as u128);
    signed_clip(neg, q)
}

/// Integer square root over the whole `u128` range, by bisection.
fn isqrt_u128(n: u128) -> (r: u64)
    ensures
        r as nat == isqrt(n as nat),
{
    let mut lo: u128 = 0;
    let mut hi: u128 = 18446744073709551616;
    proof {
        assert((n as nat) < (hi as nat) * (hi as nat)) by (nonlinear_arith)
            requires
                n <= 0xffffffffffffffffffffffffffffffffu128,
                hi == 18446744073709551616u128,
        ;
    }
    while lo + 1 < hi
        invariant
            lo < hi,
            hi <= 18446744073709551616,
            (lo as nat) * (lo as nat) <= n as nat,
            (n as nat) < (hi as nat) * (hi as nat),
        decreases hi - lo,
    {
        let mid: u128 = lo + (hi - lo) / 2;
        proof {
            assert(lo < mid < hi);
            lemma_mul_le(mid as nat, mid as nat, u64::MAX as nat, u64::MAX as nat);
        }
        if mid * mid <= n {
            lo = mid;
        } else {
            hi = mid;
        }
    }
    proof {
        lemma_isqrt_unique(n as nat, lo as nat);
    }
    lo as u64
}

/// Fixed-point square root; returns 0 for nonpositive input.
pub fn fx_sqrt(a: i64) -> (r: i64)
    ensures
        r as int == s_sqrt(a as int),
{
    if a <= 0 {
        return 0;
    }
    proof {
        lemma_mul_le(a as nat, SCALE as nat, i64::MAX as nat, SCALE as nat);
    }
    let n: u128 = (a as u128) * (SCALE as u128);
    let rt: u64 = isqrt_u128(n);
    proof {
        lemma_isqrt_bounds(n as nat);
        assert(rt < 1099511627776) by (nonlinear_arith)
            requires
                (rt as nat) * (rt as nat) <= n as nat,
                (n as nat) < 1208925819614629174706176,
        ;
    }
    rt as i64
}

/// Magnitude of a scalar, saturated to `MAXV`.
pub open spec fn s_abs(a: int) -> int {
    clip(abs_i(a) as int)
}

/// Saturating magnitude.
pub fn fx_abs(a: i64) -> (r: i64)
    ensures
        r as int == s_abs(a as int),
{
    let m: i128 = if a >= 0 {
        a as i128
    } else {
        -(a as i128)
    };
    if m > MAXV as i128 {
        MAXV
    } else {
        m as i64
    }
}

/// Smaller of two scalars.
pub fn fx_min(a: i64, b: i64) -> (r: i64)
    ensures
        r as int == s_min(a as int, b as int),
{
    if a < b {
        a
    } else {
        b
    }
}

/// Smaller of two values.
pub open spec fn s_min(a: int, b: int) -> int {
    if a < b {
        a
    } else {
        b
    }
}

} // verus!
