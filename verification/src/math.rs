//! Fixed-point sample arithmetic and the complex helpers built on it.
//!
//! A sample is an `i64` in Q32 format: the real number `x` is stored as
//! `floor(x * 2^32)`. Sums and differences saturate at the `i64` range, and a
//! product is rescaled by `2^32` with flooring, so every operation is total
//! and its result is stated exactly by its contract. A complex value is a
//! `(real, imaginary)` pair of samples.

use vstd::prelude::*;
use vstd::arithmetic::div_mod::{
    lemma_fundamental_div_mod, lemma_fundamental_div_mod_converse,
};

verus! {

/// The Q32 fixed-point representation of the real number one.
pub const FX_ONE: i64 = 0x1_0000_0000;

/// Saturation of an unbounded integer into the `i64` range.
pub open spec fn sat64(v: int) -> int {
    if v > i64::MAX as int {
        i64::MAX as int
    } else if v < i64::MIN as int {
        i64::MIN as int
    } else {
        v
    }
}

/// Flooring rescale after a Q32 product: the floor of `v / 2^32`.
/// (Division of an `int` by a positive divisor rounds towards minus infinity.)
pub open spec fn q_floor(v: int) -> int {
    v / (FX_ONE as int)
}

/// What the saturating sample addition returns.
pub open spec fn fx_add_s(a: i64, b: i64) -> int {
    sat64(a + b)
}

/// What the saturating sample subtraction returns.
pub open spec fn fx_sub_s(a: i64, b: i64) -> int {
    sat64(a - b)
}

/// What the saturating Q32 sample multiplication returns.
pub open spec fn fx_mul_s(a: i64, b: i64) -> int {
    sat64(q_floor(a * b))
}

/// What the complex addition returns, component by component.
pub open spec fn c_add_s(a: (i64, i64), b: (i64, i64)) -> (int, int) {
    (fx_add_s(a.0, b.0), fx_add_s(a.1, b.1))
}

/// What the complex subtraction returns, component by component.
pub open spec fn c_sub_s(a: (i64, i64), b: (i64, i64)) -> (int, int) {
    (fx_sub_s(a.0, b.0), fx_sub_s(a.1, b.1))
}

/// Real part of the complex Q32 product, built from the saturating sample
/// operations: each product of two samples is rescaled and saturated on its
/// own, then the combination saturates again.
pub open spec fn c_mul_re_s(a: (i64, i64), b: (i64, i64)) -> int {
    sat64(fx_mul_s(a.0, b.0) - fx_mul_s(a.1, b.1))
}

/// Imaginary part of the complex Q32 product, built from the saturating
/// sample operations.
pub open spec fn c_mul_im_s(a: (i64, i64), b: (i64, i64)) -> int {
    sat64(fx_mul_s(a.0, b.1) + fx_mul_s(a.1, b.0))
}

/// The complex addition as a pair of samples.
pub open spec fn c_add_p(a: (i64, i64), b: (i64, i64)) -> (i64, i64) {
    (c_add_s(a, b).0 as i64, c_add_s(a, b).1 as i64)
}

/// The complex subtraction as a pair of samples.
pub open spec fn c_sub_p(a: (i64, i64), b: (i64, i64)) -> (i64, i64) {
    (c_sub_s(a, b).0 as i64, c_sub_s(a, b).1 as i64)
}

/// The complex Q32 multiplication as a pair of samples.
pub open spec fn c_mul_p(a: (i64, i64), b: (i64, i64)) -> (i64, i64) {
    (c_mul_re_s(a, b) as i64, c_mul_im_s(a, b) as i64)
}

/// Narrows a wide intermediate value into a sample, saturating at the ends of
/// the `i64` range.
fn sat_narrow(v: i128) -> (r: i64)
    ensures
        r as int == sat64(v as int),
{
    if v > i64::MAX as i128 {
        i64::MAX
    } else if v < i64::MIN as i128 {
        i64::MIN
    } else {
        v as i64
    }
}

/// Flooring division of a wide intermediate value by a positive divisor,
/// written over unsigned machine division so that negative values round
/// towards minus infinity exactly as the mathematical floor does.
pub(crate) fn div_floor(p: i128, d: u64) -> (r: i128)
    requires
        d > 0,
        p > i128::MIN,
    ensures
        r as int == (p as int) / (d as int),
        p >= 0 ==> 0 <= r <= p,
        p < 0 ==> p <= r <= 0,
{
    let du = d as u128;
    if p >= 0 {
        let pu = p as u128;
        let q = pu / du;
        proof {
            lemma_fundamental_div_mod(pu as int, du as int);
            assert(q as int * du as int <= pu as int) by (nonlinear_arith)
                requires
                    pu as int == du as int * (pu as int / du as int) + pu as int % du as int,
                    q as int == pu as int / du as int,
                    pu as int % du as int >= 0,
            ;
            assert(q as int <= pu as int) by (nonlinear_arith)
                requires
                    q as int * du as int <= pu as int,
                    du as int >= 1,
                    q as int >= 0,
            ;
        }
        q as i128
    } else {
        let m = (-p) as u128;
        let q = (m + du - 1) / du;
        proof {
            let mi = m as int;
            let di = du as int;
            let qm = mi / di;
            let rm = mi % di;
            assert(mi == -(p as int));
            assert(1 <= mi);
            lemma_fundamental_div_mod(mi, di);
            assert(mi == di * qm + rm);
            assert(0 <= rm < di);
            assert(qm >= 0 && di * qm <= mi) by (nonlinear_arith)
                requires
                    mi == di * qm + rm,
                    di >= 1,
                    0 <= rm < di,
                    mi >= 1,
            ;
            assert(qm <= mi && (rm != 0 ==> qm + 1 <= mi)) by (nonlinear_arith)
                requires
                    mi == di * qm + rm,
                    di >= 1,
                    0 <= rm < di,
                    mi >= 1,
                    qm >= 0,
            ;
            if rm == 0 {
                // m + d - 1 = d * qm + (d - 1), so the exec quotient is qm,
                // and -m = d * (-qm) + 0, so floor(-m / d) is -qm.
                assert((mi + di - 1) == qm * di + (di - 1)) by (nonlinear_arith)
                    requires mi == di * qm + rm, rm == 0,
                ;
                lemma_fundamental_div_mod_converse(mi + di - 1, di, qm, di - 1);
                assert((-mi) == (-qm) * di + 0) by (nonlinear_arith)
                    requires mi == di * qm + rm, rm == 0,
                ;
                lemma_fundamental_div_mod_converse(-mi, di, -qm, 0);
                assert(q as int == qm);
                assert((p as int) / (d as int) == -qm);
            } else {
                // m + d - 1 = d * (qm + 1) + (rm - 1), so the exec quotient is
                // qm + 1, and -m = d * (-(qm + 1)) + (d - rm), so the floor of
                // -m / d is -(qm + 1).
                assert((mi + di - 1) == (qm + 1) * di + (rm - 1)) by (nonlinear_arith)
                    requires mi == di * qm + rm,
                ;
                lemma_fundamental_div_mod_converse(mi + di - 1, di, qm + 1, rm - 1);
                assert((-mi) == (-(qm + 1)) * di + (di - rm)) by (nonlinear_arith)
                    requires mi == di * qm + rm,
                ;
                lemma_fundamental_div_mod_converse(-mi, di, -(qm + 1), di - rm);
                assert(q as int == qm + 1);
                assert((p as int) / (d as int) == -(qm + 1));
            }
            assert(q as int <= mi);
        }
        -((q as i128))
    }
}

/// Saturating sample addition.
pub fn fx_add(a: i64, b: i64) -> (r: i64)
    ensures
        r as int == fx_add_s(a, b),
{
    sat_narrow(a as i128 + b as i128)
}

/// Saturating sample subtraction.
pub fn fx_sub(a: i64, b: i64) -> (r: i64)
    ensures
        r as int == fx_sub_s(a, b),
{
    sat_narrow(a as i128 - b as i128)
}

/// Saturating Q32 sample multiplication.
pub fn fx_mul(a: i64, b: i64) -> (r: i64)
    ensures
        r as int == fx_mul_s(a, b),
{
    proof {
        lemma_sample_product_range(a, b);
    }
    let p = a as i128 * b as i128;
    sat_narrow(div_floor(p, FX_ONE as u64))
}

/// Complex addition, component by component.
pub fn c_add(a: (i64, i64), b: (i64, i64)) -> (r: (i64, i64))
    ensures
        r == c_add_p(a, b),
{
    (fx_add(a.0, b.0), fx_add(a.1, b.1))
}

/// Complex subtraction, component by component.
pub fn c_sub(a: (i64, i64), b: (i64, i64)) -> (r: (i64, i64))
    ensures
        r == c_sub_p(a, b),
{
    (fx_sub(a.0, b.0), fx_sub(a.1, b.1))
}

/// Complex Q32 multiplication. Each product of two samples is rescaled on its
/// own; the final combination saturates.
pub fn c_mul(a: (i64, i64), b: (i64, i64)) -> (r: (i64, i64))
    ensures
        r == c_mul_p(a, b),
{
    let re = fx_sub(fx_mul(a.0, b.0), fx_mul(a.1, b.1));
    let im = fx_add(fx_mul(a.0, b.1), fx_mul(a.1, b.0));
    (re, im)
}

/// The wide product of two samples stays strictly inside the wide
/// intermediate range.
proof fn lemma_sample_product_range(a: i64, b: i64)
    ensures
        -0x4000_0000_0000_0000_0000_0000_0000_0000
            < a as int * b as int
            <= 0x4000_0000_0000_0000_0000_0000_0000_0000,
{
    assert(-0x4000_0000_0000_0000_0000_0000_0000_0000
        < a as int * b as int
        <= 0x4000_0000_0000_0000_0000_0000_0000_0000) by (nonlinear_arith)
        requires
            i64::MIN <= a as int <= i64::MAX,
            i64::MIN <= b as int <= i64::MAX,
    ;
}

} // verus!
