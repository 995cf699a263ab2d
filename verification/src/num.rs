//! Small verified numeric helpers shared by the whole engine: clamping,
//! truncating signed division, and an exact integer square root.

use vstd::prelude::*;

verus! {

/// Clamping to a closed interval, as a mathematical function.
pub open spec fn spec_clamp(v: int, lo: int, hi: int) -> int {
    if v < lo {
        lo
    } else if v > hi {
        hi
    } else {
        v
    }
}

/// Clamps `v` into `[lo, hi]`.
pub fn clamp_i64(v: i64, lo: i64, hi: i64) -> (r: i64)
    requires
        lo <= hi,
    ensures
        r == spec_clamp(v as int, lo as int, hi as int),
        lo <= r <= hi,
{
    if v < lo {
        lo
    } else if v > hi {
        hi
    } else {
        v
    }
}

/// Division truncating toward zero, the semantics of Rust's `/` on signed
/// integers, as a mathematical function. `b` must be positive.
pub open spec fn spec_tdiv(a: int, b: int) -> int {
    if a >= 0 {
        a / b
    } else {
        -((-a) / b)
    }
}

/// Divides `a` by `b`, truncating toward zero.
pub fn tdiv(a: i64, b: i64) -> (r: i64)
    requires
        b > 0,
        a > i64::MIN,
    ensures
        r == spec_tdiv(a as int, b as int),
{
    if a >= 0 {
        let q: u64 = (a as u64) / (b as u64);
        q as i64
    } else {
        let m: i64 = -a;
        let q: u64 = (m as u64) / (b as u64);
        -(q as i64)
    }
}

/// `r` is the integer square root of `x`.
pub open spec fn is_isqrt(x: nat, r: nat) -> bool {
    r * r <= x < (r + 1) * (r + 1)
}

/// The integer square root as a mathematical function.
pub open spec fn spec_isqrt(x: nat) -> nat {
    choose|r: nat| is_isqrt(x, r)
}

/// Every natural number has an integer square root.
pub proof fn lemma_isqrt_exists(x: nat)
    ensures
        is_isqrt(x, spec_isqrt(x)),
    decreases x,
{
    if x == 0 {
        assert(is_isqrt(x, 0)) by (nonlinear_arith)
            requires
                x == 0,
        ;
        assert(exists|q: nat| is_isqrt(x, q));
    } else {
        lemma_isqrt_exists((x - 1) as nat);
        let r = spec_isqrt((x - 1) as nat);
        if (r + 1) * (r + 1) <= x {
            assert(is_isqrt(x, (r + 1) as nat)) by (nonlinear_arith)
                requires
                    r * r <= x - 1 < (r + 1) * (r + 1),
                    (r + 1) * (r + 1) <= x,
            ;
        } else {
            assert(is_isqrt(x, r));
        }
        assert(exists|q: nat| is_isqrt(x, q));
    }
    assert(is_isqrt(x, choose|q: nat| is_isqrt(x, q)));
}

/// Any witness of `is_isqrt` is the integer square root: the root is unique.
pub proof fn lemma_isqrt_unique(x: nat, r: nat)
    requires
        is_isqrt(x, r),
    ensures
        spec_isqrt(x) == r,
{
    assert(exists|q: nat| is_isqrt(x, q));
    assert(is_isqrt(x, spec_isqrt(x)));
    let s = spec_isqrt(x);
    assert(s == r) by (nonlinear_arith)
        requires
            s * s <= x < (s + 1) * (s + 1),
            r * r <= x < (r + 1) * (r + 1),
    ;
}

/// Computes the integer square root of `x` by binary search.
pub fn isqrt(x: u64) -> (r: u64)
    ensures
        r == spec_isqrt(x as nat),
        r * r <= x < (r + 1) * (r + 1),
{
    let mut lo: u64 = 0;
    let mut hi: u64 = 4294967296;
    assert(hi * hi > x as int) by (nonlinear_arith)
        requires
            hi == 4294967296 && x <= u64::MAX,
    ;
    while lo + 1 < hi
        invariant
            lo < hi <= 4294967296,
            lo * lo <= x,
            x < hi * hi,
        decreases hi - lo,
    {
        let mid: u64 = lo + (hi - lo) / 2;
        assert(lo < mid < hi);
        if mid <= x / mid {
            assert(mid * mid <= x) by (nonlinear_arith)
                requires
                    mid > 0 && mid <= x as int / mid as int,
            ;
            lo = mid;
        } else {
            assert(x < mid * mid) by (nonlinear_arith)
                requires
                    mid > 0 && mid > x as int / mid as int,
            ;
            hi = mid;
        }
    }
    proof {
        assert(is_isqrt(x as nat, lo as nat));
        lemma_isqrt_unique(x as nat, lo as nat);
    }
    lo
}

/// A component of a vector is bounded in magnitude by the rounded-down length
/// of the vector.
pub proof fn lemma_component_le_isqrt(v: int, dsq: nat)
    requires
        v * v <= dsq,
    ensures
        -spec_isqrt(dsq) <= v <= spec_isqrt(dsq),
{
    assert(v * v >= 0) by (nonlinear_arith);
    let av: nat = if v >= 0 {
        v as nat
    } else {
        (-v) as nat
    };
    assert(is_isqrt((av * av) as nat, av)) by (nonlinear_arith);
    assert(av * av == v * v) by (nonlinear_arith)
        requires
            av == if v >= 0 {
                v
            } else {
                -v
            },
    ;
    lemma_isqrt_unique((v * v) as nat, av);
    lemma_isqrt_le((v * v) as nat, dsq);
}

/// Scaling a component no longer than the length by `scale / len` keeps its
/// magnitude within `scale`.
pub proof fn lemma_scaled_div_bound(v: int, len: int, scale: int)
    requires
        len > 0,
        -len <= v <= len,
        0 <= scale,
    ensures
        -scale <= spec_tdiv(v * scale, len) <= scale,
{
    if v >= 0 {
        assert(0 <= v * scale <= len * scale) by (nonlinear_arith)
            requires
                0 <= v <= len,
                0 <= scale,
        ;
        vstd::arithmetic::div_mod::lemma_div_is_ordered(v * scale, len * scale, len);
        vstd::arithmetic::div_mod::lemma_div_multiples_vanish(scale, len);
        vstd::arithmetic::div_mod::lemma_div_pos_is_pos(v * scale, len);
    } else {
        assert(0 <= (-v) * scale <= len * scale) by (nonlinear_arith)
            requires
                0 <= -v <= len,
                0 <= scale,
        ;
        assert(-(v * scale) == (-v) * scale) by (nonlinear_arith);
        vstd::arithmetic::div_mod::lemma_div_is_ordered((-v) * scale, len * scale, len);
        vstd::arithmetic::div_mod::lemma_div_multiples_vanish(scale, len);
        vstd::arithmetic::div_mod::lemma_div_pos_is_pos((-v) * scale, len);
        assert(spec_tdiv(v * scale, len) == -(((-v) * scale) / len));
    }
}

/// The square root is monotone; in particular a component never exceeds the
/// root of a sum of squares.
pub proof fn lemma_isqrt_le(x: nat, y: nat)
    requires
        x <= y,
    ensures
        spec_isqrt(x) <= spec_isqrt(y),
{
    lemma_isqrt_exists(x);
    lemma_isqrt_exists(y);
    let a = spec_isqrt(x);
    let b = spec_isqrt(y);
    assert(a <= b) by (nonlinear_arith)
        requires
            a * a <= x < (a + 1) * (a + 1),
            b * b <= y < (b + 1) * (b + 1),
            x <= y,
    ;
}

} // verus!
