//! Triangle rasterization by barycentric bounding-box fill, and
//! Bresenham line drawing.
//!
//! Barycentric weights are kept as exact integer ratios: three
//! numerators over a common denominator. The denominator is the square
//! of the doubled triangle area, so it is non-negative for either
//! winding, zero exactly for degenerate triangles — which are rejected,
//! never divided by.

use vstd::prelude::*;
use crate::display::Color;
use crate::display::DisplayBuffer;
use crate::display::data_after;
use crate::display::zbuf_after;
use crate::display::pixel_index;
use crate::vector::Vector2;
use crate::vector::Vector3;
use crate::mesh::Face;
use crate::mesh::Renderable;
use crate::fx::tdiv;
use crate::fx::tdiv128;
use crate::fx::lemma_tdiv_is_ordered;
use crate::fx::lemma_tdiv_multiple;

verus! {

/// The common denominator of the barycentric weights of any point with
/// respect to triangle ABC: the Gram determinant of the edge vectors
/// B - A and C - A.
pub open spec fn bary_denom(a: Vector2, b: Vector2, c: Vector2) -> int {
    let v0x = b.x - a.x;
    let v0y = b.y - a.y;
    let v1x = c.x - a.x;
    let v1y = c.y - a.y;
    let d00 = v0x * v0x + v0y * v0y;
    let d01 = v0x * v1x + v0y * v1y;
    let d11 = v1x * v1x + v1y * v1y;
    d00 * d11 - d01 * d01
}

/// The numerator of the weight of vertex B for point P.
pub open spec fn bary_v_num(a: Vector2, b: Vector2, c: Vector2, p: Vector2) -> int {
    let v0x = b.x - a.x;
    let v0y = b.y - a.y;
    let v1x = c.x - a.x;
    let v1y = c.y - a.y;
    let v2x = p.x - a.x;
    let v2y = p.y - a.y;
    let d01 = v0x * v1x + v0y * v1y;
    let d11 = v1x * v1x + v1y * v1y;
    let d20 = v2x * v0x + v2y * v0y;
    let d21 = v2x * v1x + v2y * v1y;
    d11 * d20 - d01 * d21
}

/// The numerator of the weight of vertex C for point P.
pub open spec fn bary_w_num(a: Vector2, b: Vector2, c: Vector2, p: Vector2) -> int {
    let v0x = b.x - a.x;
    let v0y = b.y - a.y;
    let v1x = c.x - a.x;
    let v1y = c.y - a.y;
    let v2x = p.x - a.x;
    let v2y = p.y - a.y;
    let d00 = v0x * v0x + v0y * v0y;
    let d01 = v0x * v1x + v0y * v1y;
    let d20 = v2x * v0x + v2y * v0y;
    let d21 = v2x * v1x + v2y * v1y;
    d00 * d21 - d01 * d20
}

/// The numerator of the weight of vertex A for point P: whatever the
/// other two weights leave of the whole.
pub open spec fn bary_u_num(a: Vector2, b: Vector2, c: Vector2, p: Vector2) -> int {
    bary_denom(a, b, c) - bary_v_num(a, b, c, p) - bary_w_num(a, b, c, p)
}

/// Both components of `v` lie in `[-b, b]`.
pub open spec fn vec2_bounded(v: Vector2, b: int) -> bool {
    &&& -b <= v.x <= b
    &&& -b <= v.y <= b
}

/// The product of two values bounded by `b` is bounded by `b * b`.
proof fn lemma_mul_bound(x: int, y: int, b: int)
    by (nonlinear_arith)
    requires
        -b <= x <= b,
        -b <= y <= b,
        0 <= b,
    ensures
        -(b * b) <= x * y <= b * b,
{
}

/// The product of values bounded by `bx` and `by` is bounded by
/// `bx * by`.
proof fn lemma_mul_bound2(x: int, y: int, bx: int, by: int)
    by (nonlinear_arith)
    requires
        -bx <= x <= bx,
        -by <= y <= by,
        0 <= bx,
        0 <= by,
    ensures
        -(bx * by) <= x * y <= bx * by,
{
}

/// Exact barycentric coordinates of a point with respect to a triangle:
/// `u_num / denom`, `v_num / denom`, `w_num / denom` are the weights of
/// the triangle's first, second and third vertex.
pub struct Barycentric {
    pub u_num: i64,
    pub v_num: i64,
    pub w_num: i64,
    pub denom: i64,
}

/// Get barycentric coordinates for a point P with respect to a triangle
/// ABC, as exact integer ratios over a common denominator.
///
/// Barycentric coordinates (u, v, w) are defined such that
/// uA + vB + wC = P. Some useful properties:
/// - if u, v, w all are >= 0 then point P is inside the triangle ABC;
/// - if any of u, v, w is < 0 then point P is outside the triangle ABC;
/// - u, v, w can be used to interpolate vertex attributes inside the
///   triangle;
/// - u + v + w = 1, that is, the numerators sum to the denominator.
pub fn get_barycentric(a: Vector2, b: Vector2, c: Vector2, p: Vector2) -> (r: Barycentric)
    requires
        vec2_bounded(a, 8192),
        vec2_bounded(b, 8192),
        vec2_bounded(c, 8192),
        vec2_bounded(p, 8192),
    ensures
        r.denom == bary_denom(a, b, c),
        r.v_num == bary_v_num(a, b, c, p),
        r.w_num == bary_w_num(a, b, c, p),
        r.u_num == bary_u_num(a, b, c, p),
        -0x2000000000000000 <= r.denom <= 0x2000000000000000,
        -0x2000000000000000 <= r.v_num <= 0x2000000000000000,
        -0x2000000000000000 <= r.w_num <= 0x2000000000000000,
        -0x2000000000000000 <= r.u_num <= 0x2000000000000000,
{
    let v0 = b.sub(a);
    let v1 = c.sub(a);
    let v2 = p.sub(a);

    proof {
        lemma_mul_bound(v0.x as int, v0.x as int, 16384);
        lemma_mul_bound(v0.y as int, v0.y as int, 16384);
        lemma_mul_bound(v0.x as int, v1.x as int, 16384);
        lemma_mul_bound(v0.y as int, v1.y as int, 16384);
        lemma_mul_bound(v1.x as int, v1.x as int, 16384);
        lemma_mul_bound(v1.y as int, v1.y as int, 16384);
        lemma_mul_bound(v2.x as int, v0.x as int, 16384);
        lemma_mul_bound(v2.y as int, v0.y as int, 16384);
        lemma_mul_bound(v2.x as int, v1.x as int, 16384);
        lemma_mul_bound(v2.y as int, v1.y as int, 16384);
    }
    let d00: i64 = v0.x * v0.x + v0.y * v0.y;
    let d01: i64 = v0.x * v1.x + v0.y * v1.y;
    let d11: i64 = v1.x * v1.x + v1.y * v1.y;
    let d20: i64 = v2.x * v0.x + v2.y * v0.y;
    let d21: i64 = v2.x * v1.x + v2.y * v1.y;

    proof {
        lemma_mul_bound(d00 as int, d11 as int, 0x20000000);
        lemma_mul_bound(d01 as int, d01 as int, 0x20000000);
        lemma_mul_bound(d11 as int, d20 as int, 0x20000000);
        lemma_mul_bound(d01 as int, d21 as int, 0x20000000);
        lemma_mul_bound(d00 as int, d21 as int, 0x20000000);
        lemma_mul_bound(d01 as int, d20 as int, 0x20000000);
    }
    let denom: i64 = d00 * d11 - d01 * d01;
    let v_num: i64 = d11 * d20 - d01 * d21;
    let w_num: i64 = d00 * d21 - d01 * d20;
    let u_num: i64 = (denom - v_num) - w_num;

    Barycentric { u_num, v_num, w_num, denom }
}

/// Partition of unity: the three barycentric numerators always sum to
/// exactly the common denominator, so the weights sum to exactly one
/// whenever the triangle is not degenerate.
pub proof fn lemma_bary_partition_of_unity(a: Vector2, b: Vector2, c: Vector2, p: Vector2)
    ensures
        bary_u_num(a, b, c, p) + bary_v_num(a, b, c, p) + bary_w_num(a, b, c, p) == bary_denom(
            a,
            b,
            c,
        ),
{
}

/// The Gram determinant of two 2D vectors is the square of their cross
/// product.
proof fn lemma_gram_is_square(x0: int, y0: int, x1: int, y1: int)
    ensures
        (x0 * x0 + y0 * y0) * (x1 * x1 + y1 * y1) - (x0 * x1 + y0 * y1) * (x0 * x1 + y0 * y1) == (
        x0 * y1 - y0 * x1) * (x0 * y1 - y0 * x1),
{
    let xx = x0 * x0;
    let yy = y0 * y0;
    let zz = x1 * x1;
    let ww = y1 * y1;
    let p = x0 * x1;
    let q = y0 * y1;
    let r = x0 * y1;
    let s = y0 * x1;
    assert((xx + yy) * (zz + ww) == xx * zz + xx * ww + yy * zz + yy * ww) by (nonlinear_arith);
    assert((p + q) * (p + q) == p * p + 2 * (p * q) + q * q) by (nonlinear_arith);
    assert((r - s) * (r - s) == r * r - 2 * (r * s) + s * s) by (nonlinear_arith);
    assert(xx * zz == p * p) by (nonlinear_arith)
        requires
            xx == x0 * x0,
            zz == x1 * x1,
            p == x0 * x1,
    ;
    assert(xx * ww == r * r) by (nonlinear_arith)
        requires
            xx == x0 * x0,
            ww == y1 * y1,
            r == x0 * y1,
    ;
    assert(yy * zz == s * s) by (nonlinear_arith)
        requires
            yy == y0 * y0,
            zz == x1 * x1,
            s == y0 * x1,
    ;
    assert(yy * ww == q * q) by (nonlinear_arith)
        requires
            yy == y0 * y0,
            ww == y1 * y1,
            q == y0 * y1,
    ;
    assert(p * q == r * s) by (nonlinear_arith)
        requires
            p == x0 * x1,
            q == y0 * y1,
            r == x0 * y1,
            s == y0 * x1,
    ;
}

/// The barycentric denominator is the square of the doubled signed
/// area of the triangle, hence never negative, and zero exactly for
/// degenerate (zero-area) triangles.
pub proof fn lemma_bary_denom_is_square(a: Vector2, b: Vector2, c: Vector2)
    ensures
        bary_denom(a, b, c) == ((b.x - a.x) * (c.y - a.y) - (b.y - a.y) * (c.x - a.x)) * ((b.x
            - a.x) * (c.y - a.y) - (b.y - a.y) * (c.x - a.x)),
        bary_denom(a, b, c) >= 0,
{
    let v0x = b.x - a.x;
    let v0y = b.y - a.y;
    let v1x = c.x - a.x;
    let v1y = c.y - a.y;
    let cr = v0x * v1y - v0y * v1x;
    lemma_gram_is_square(v0x, v0y, v1x, v1y);
    assert(cr * cr >= 0) by (nonlinear_arith);
}

/// Orientation independence: reversing the winding of the triangle
/// (swapping B and C) keeps the denominator and the weight of A, and
/// exchanges the weights of B and C. Whether a point counts as inside
/// therefore does not depend on the winding.
#[verifier::rlimit(20)]
pub proof fn lemma_bary_winding(a: Vector2, b: Vector2, c: Vector2, p: Vector2)
    ensures
        bary_denom(a, c, b) == bary_denom(a, b, c),
        bary_v_num(a, c, b, p) == bary_w_num(a, b, c, p),
        bary_w_num(a, c, b, p) == bary_v_num(a, b, c, p),
        bary_u_num(a, c, b, p) == bary_u_num(a, b, c, p),
{
    let v0x = b.x - a.x;
    let v0y = b.y - a.y;
    let v1x = c.x - a.x;
    let v1y = c.y - a.y;
    assert((v1x * v1x + v1y * v1y) * (v0x * v0x + v0y * v0y) - (v1x * v0x + v1y * v0y) * (v1x
        * v0x + v1y * v0y) == (v0x * v0x + v0y * v0y) * (v1x * v1x + v1y * v1y) - (v0x * v1x
        + v0y * v1y) * (v0x * v1x + v0y * v1y)) by (nonlinear_arith);
}

/// The weight numerator of B factors through the cross products:
/// `v_num == (v0 x v1) * (v2 x v1)` over the edge vectors.
proof fn lemma_v_num_factors(x0: int, y0: int, x1: int, y1: int, x2: int, y2: int)
    ensures
        (x1 * x1 + y1 * y1) * (x2 * x0 + y2 * y0) - (x0 * x1 + y0 * y1) * (x2 * x1 + y2 * y1) == (
        x0 * y1 - y0 * x1) * (x2 * y1 - y2 * x1),
{
    let a = x1 * x1;
    let b = y1 * y1;
    let c = x2 * x0;
    let d = y2 * y0;
    let e = x0 * x1;
    let f = y0 * y1;
    let g = x2 * x1;
    let h = y2 * y1;
    let r = x0 * y1;
    let s = y0 * x1;
    let t = x2 * y1;
    let u = y2 * x1;
    assert((a + b) * (c + d) == a * c + a * d + b * c + b * d) by (nonlinear_arith);
    assert((e + f) * (g + h) == e * g + e * h + f * g + f * h) by (nonlinear_arith);
    assert((r - s) * (t - u) == r * t - r * u - s * t + s * u) by (nonlinear_arith);
    assert(a * c == e * g) by (nonlinear_arith)
        requires
            a == x1 * x1,
            c == x2 * x0,
            e == x0 * x1,
            g == x2 * x1,
    ;
    assert(b * d == f * h) by (nonlinear_arith)
        requires
            b == y1 * y1,
            d == y2 * y0,
            f == y0 * y1,
            h == y2 * y1,
    ;
    assert(a * d == s * u) by (nonlinear_arith)
        requires
            a == x1 * x1,
            d == y2 * y0,
            s == y0 * x1,
            u == y2 * x1,
    ;
    assert(b * c == r * t) by (nonlinear_arith)
        requires
            b == y1 * y1,
            c == x2 * x0,
            r == x0 * y1,
            t == x2 * y1,
    ;
    assert(e * h == r * u) by (nonlinear_arith)
        requires
            e == x0 * x1,
            h == y2 * y1,
            r == x0 * y1,
            u == y2 * x1,
    ;
    assert(f * g == s * t) by (nonlinear_arith)
        requires
            f == y0 * y1,
            g == x2 * x1,
            s == y0 * x1,
            t == x2 * y1,
    ;
}

/// The weight numerator of C factors through the cross products:
/// `w_num == (v0 x v1) * (v0 x v2)` over the edge vectors.
proof fn lemma_w_num_factors(x0: int, y0: int, x1: int, y1: int, x2: int, y2: int)
    ensures
        (x0 * x0 + y0 * y0) * (x2 * x1 + y2 * y1) - (x0 * x1 + y0 * y1) * (x2 * x0 + y2 * y0) == (
        x0 * y1 - y0 * x1) * (x0 * y2 - y0 * x2),
{
    let a = x0 * x0;
    let b = y0 * y0;
    let g = x2 * x1;
    let h = y2 * y1;
    let e = x0 * x1;
    let f = y0 * y1;
    let c = x2 * x0;
    let d = y2 * y0;
    let r = x0 * y1;
    let s = y0 * x1;
    let m = x0 * y2;
    let n = y0 * x2;
    assert((a + b) * (g + h) == a * g + a * h + b * g + b * h) by (nonlinear_arith);
    assert((e + f) * (c + d) == e * c + e * d + f * c + f * d) by (nonlinear_arith);
    assert((r - s) * (m - n) == r * m - r * n - s * m + s * n) by (nonlinear_arith);
    assert(a * g == e * c) by (nonlinear_arith)
        requires
            a == x0 * x0,
            g == x2 * x1,
            e == x0 * x1,
            c == x2 * x0,
    ;
    assert(b * h == f * d) by (nonlinear_arith)
        requires
            b == y0 * y0,
            h == y2 * y1,
            f == y0 * y1,
            d == y2 * y0,
    ;
    assert(a * h == r * m) by (nonlinear_arith)
        requires
            a == x0 * x0,
            h == y2 * y1,
            r == x0 * y1,
            m == x0 * y2,
    ;
    assert(b * g == s * n) by (nonlinear_arith)
        requires
            b == y0 * y0,
            g == x2 * x1,
            s == y0 * x1,
            n == y0 * x2,
    ;
    assert(e * d == s * m) by (nonlinear_arith)
        requires
            e == x0 * x1,
            d == y2 * y0,
            s == y0 * x1,
            m == x0 * y2,
    ;
    assert(f * c == r * n) by (nonlinear_arith)
        requires
            f == y0 * y1,
            c == x2 * x0,
            r == x0 * y1,
            n == y0 * x2,
    ;
}

/// The defining property of barycentric coordinates: the weights
/// reconstruct the point, `u A + v B + w C == P`, stated over the exact
/// integer ratios by clearing the common denominator.
pub proof fn lemma_bary_reconstructs_point(a: Vector2, b: Vector2, c: Vector2, p: Vector2)
    ensures
        bary_u_num(a, b, c, p) * a.x + bary_v_num(a, b, c, p) * b.x + bary_w_num(a, b, c, p)
            * c.x == bary_denom(a, b, c) * p.x,
        bary_u_num(a, b, c, p) * a.y + bary_v_num(a, b, c, p) * b.y + bary_w_num(a, b, c, p)
            * c.y == bary_denom(a, b, c) * p.y,
{
    let x0 = b.x - a.x;
    let y0 = b.y - a.y;
    let x1 = c.x - a.x;
    let y1 = c.y - a.y;
    let x2 = p.x - a.x;
    let y2 = p.y - a.y;
    let vn = bary_v_num(a, b, c, p);
    let wn = bary_w_num(a, b, c, p);
    let dn = bary_denom(a, b, c);
    let cr = x0 * y1 - y0 * x1;
    let cv = x2 * y1 - y2 * x1;
    let cw = x0 * y2 - y0 * x2;
    lemma_v_num_factors(x0, y0, x1, y1, x2, y2);
    lemma_w_num_factors(x0, y0, x1, y1, x2, y2);
    lemma_gram_is_square(x0, y0, x1, y1);
    let r = x0 * y1;
    let s = y0 * x1;
    let t = x2 * y1;
    let u = y2 * x1;
    let m = x0 * y2;
    let n = y0 * x2;
    vstd::arithmetic::mul::lemma_mul_is_distributive_sub_other_way(x0, t, u);
    vstd::arithmetic::mul::lemma_mul_is_distributive_sub_other_way(x1, m, n);
    vstd::arithmetic::mul::lemma_mul_is_distributive_sub_other_way(x2, r, s);
    vstd::arithmetic::mul::lemma_mul_is_distributive_sub_other_way(y0, t, u);
    vstd::arithmetic::mul::lemma_mul_is_distributive_sub_other_way(y1, m, n);
    vstd::arithmetic::mul::lemma_mul_is_distributive_sub_other_way(y2, r, s);
    assert(t * x0 == r * x2) by (nonlinear_arith)
        requires
            t == x2 * y1,
            r == x0 * y1,
    ;
    assert(u * x0 == m * x1) by (nonlinear_arith)
        requires
            u == y2 * x1,
            m == x0 * y2,
    ;
    assert(n * x1 == s * x2) by (nonlinear_arith)
        requires
            n == y0 * x2,
            s == y0 * x1,
    ;
    assert(n * y1 == t * y0) by (nonlinear_arith)
        requires
            n == y0 * x2,
            t == x2 * y1,
    ;
    assert(m * y1 == r * y2) by (nonlinear_arith)
        requires
            m == x0 * y2,
            r == x0 * y1,
    ;
    assert(u * y0 == s * y2) by (nonlinear_arith)
        requires
            u == y2 * x1,
            s == y0 * x1,
    ;
    assert(cv * x0 + cw * x1 == cr * x2);
    assert(cv * y0 + cw * y1 == cr * y2);
    vstd::arithmetic::mul::lemma_mul_is_associative(cr, cv, x0);
    vstd::arithmetic::mul::lemma_mul_is_associative(cr, cw, x1);
    vstd::arithmetic::mul::lemma_mul_is_associative(cr, cv, y0);
    vstd::arithmetic::mul::lemma_mul_is_associative(cr, cw, y1);
    vstd::arithmetic::mul::lemma_mul_is_associative(cr, cr, x2);
    vstd::arithmetic::mul::lemma_mul_is_associative(cr, cr, y2);
    vstd::arithmetic::mul::lemma_mul_is_distributive_add(cr, cv * x0, cw * x1);
    vstd::arithmetic::mul::lemma_mul_is_distributive_add(cr, cv * y0, cw * y1);
    assert(vn * x0 + wn * x1 == dn * x2);
    assert(vn * y0 + wn * y1 == dn * y2);
    let un = bary_u_num(a, b, c, p);
    vstd::arithmetic::mul::lemma_mul_is_distributive_sub(vn, b.x as int, a.x as int);
    vstd::arithmetic::mul::lemma_mul_is_distributive_sub(wn, c.x as int, a.x as int);
    vstd::arithmetic::mul::lemma_mul_is_distributive_sub(dn, p.x as int, a.x as int);
    vstd::arithmetic::mul::lemma_mul_is_distributive_sub(vn, b.y as int, a.y as int);
    vstd::arithmetic::mul::lemma_mul_is_distributive_sub(wn, c.y as int, a.y as int);
    vstd::arithmetic::mul::lemma_mul_is_distributive_sub(dn, p.y as int, a.y as int);
    vstd::arithmetic::mul::lemma_mul_is_distributive_sub_other_way(a.x as int, dn - vn, wn);
    vstd::arithmetic::mul::lemma_mul_is_distributive_sub_other_way(a.x as int, dn, vn);
    vstd::arithmetic::mul::lemma_mul_is_distributive_sub_other_way(a.y as int, dn - vn, wn);
    vstd::arithmetic::mul::lemma_mul_is_distributive_sub_other_way(a.y as int, dn, vn);
    assert(vn * x0 == vn * b.x - vn * a.x);
    assert(wn * x1 == wn * c.x - wn * a.x);
    assert(dn * x2 == dn * p.x - dn * a.x);
    assert(un * a.x == dn * a.x - vn * a.x - wn * a.x);
    assert(vn * y0 == vn * b.y - vn * a.y);
    assert(wn * y1 == wn * c.y - wn * a.y);
    assert(dn * y2 == dn * p.y - dn * a.y);
    assert(un * a.y == dn * a.y - vn * a.y - wn * a.y);
}

/// The raster-plane projections of a raster-space face's corners.
pub open spec fn raster_a(f: Face<Vector3>) -> Vector2 {
    Vector2 { x: f.v0.position.x, y: f.v0.position.y }
}

pub open spec fn raster_b(f: Face<Vector3>) -> Vector2 {
    Vector2 { x: f.v1.position.x, y: f.v1.position.y }
}

pub open spec fn raster_c(f: Face<Vector3>) -> Vector2 {
    Vector2 { x: f.v2.position.x, y: f.v2.position.y }
}

/// The least of three values.
pub open spec fn min3(a: int, b: int, c: int) -> int {
    if a <= b && a <= c {
        a
    } else if b <= c {
        b
    } else {
        c
    }
}

/// The greatest of three values.
pub open spec fn max3(a: int, b: int, c: int) -> int {
    if a >= b && a >= c {
        a
    } else if b >= c {
        b
    } else {
        c
    }
}

pub open spec fn tri_min_x(f: Face<Vector3>) -> int {
    min3(f.v0.position.x as int, f.v1.position.x as int, f.v2.position.x as int)
}

pub open spec fn tri_max_x(f: Face<Vector3>) -> int {
    max3(f.v0.position.x as int, f.v1.position.x as int, f.v2.position.x as int)
}

pub open spec fn tri_min_y(f: Face<Vector3>) -> int {
    min3(f.v0.position.y as int, f.v1.position.y as int, f.v2.position.y as int)
}

pub open spec fn tri_max_y(f: Face<Vector3>) -> int {
    max3(f.v0.position.y as int, f.v1.position.y as int, f.v2.position.y as int)
}

/// The drop-rather-than-clip policy: a triangle whose raster bounding
/// box reaches the buffer's width or height is skipped entirely.
pub open spec fn tri_dropped(f: Face<Vector3>, width: int, height: int) -> bool {
    tri_max_x(f) >= width || tri_max_y(f) >= height
}

/// Whether the fill counts the pixel center (x, y) as inside the
/// triangle: all three barycentric weights non-negative, and the
/// triangle not degenerate. A zero denominator never counts as inside.
pub open spec fn tri_inside(f: Face<Vector3>, x: int, y: int) -> bool {
    let p = Vector2 { x: x as i64, y: y as i64 };
    &&& bary_denom(raster_a(f), raster_b(f), raster_c(f)) > 0
    &&& bary_u_num(raster_a(f), raster_b(f), raster_c(f), p) >= 0
    &&& bary_v_num(raster_a(f), raster_b(f), raster_c(f), p) >= 0
    &&& bary_w_num(raster_a(f), raster_b(f), raster_c(f), p) >= 0
}

/// The depth the fill interpolates at pixel (x, y): the barycentric
/// combination of the three vertex depths, truncated toward zero.
pub open spec fn tri_z(f: Face<Vector3>, x: int, y: int) -> int {
    let p = Vector2 { x: x as i64, y: y as i64 };
    let u = bary_u_num(raster_a(f), raster_b(f), raster_c(f), p);
    let v = bary_v_num(raster_a(f), raster_b(f), raster_c(f), p);
    let w = bary_w_num(raster_a(f), raster_b(f), raster_c(f), p);
    let d = bary_denom(raster_a(f), raster_b(f), raster_c(f));
    tdiv(u * f.v0.position.z + v * f.v1.position.z + w * f.v2.position.z, d)
}

/// One interpolated color channel at pixel (x, y).
pub open spec fn tri_channel(f: Face<Vector3>, x: int, y: int, c0: u8, c1: u8, c2: u8) -> int {
    let p = Vector2 { x: x as i64, y: y as i64 };
    let u = bary_u_num(raster_a(f), raster_b(f), raster_c(f), p);
    let v = bary_v_num(raster_a(f), raster_b(f), raster_c(f), p);
    let w = bary_w_num(raster_a(f), raster_b(f), raster_c(f), p);
    let d = bary_denom(raster_a(f), raster_b(f), raster_c(f));
    tdiv(u * c0 + v * c1 + w * c2, d)
}

/// The color the fill writes at pixel (x, y): channel-wise barycentric
/// interpolation of the vertex colors, with full alpha.
pub open spec fn tri_color(f: Face<Vector3>, x: int, y: int) -> Color {
    Color {
        r: tri_channel(f, x, y, f.v0.color.r, f.v1.color.r, f.v2.color.r) as u8,
        g: tri_channel(f, x, y, f.v0.color.g, f.v1.color.g, f.v2.color.g) as u8,
        b: tri_channel(f, x, y, f.v0.color.b, f.v1.color.b, f.v2.color.b) as u8,
        a: 255,
    }
}

/// Both buffer planes after the fill has sampled the single pixel
/// (x, y): a depth-tested write of the interpolated depth and color if
/// the pixel is inside the triangle, untouched otherwise.
pub open spec fn fill_cell(
    data: Seq<u8>,
    zbuf: Seq<i64>,
    width: int,
    height: int,
    f: Face<Vector3>,
    x: int,
    y: int,
) -> (Seq<u8>, Seq<i64>) {
    if tri_inside(f, x, y) {
        let i = pixel_index(width, height, x, y);
        let z = tri_z(f, x, y) as i64;
        (data_after(data, zbuf, i, z, tri_color(f, x, y)), zbuf_after(zbuf, i, z))
    } else {
        (data, zbuf)
    }
}

/// Both buffer planes after the fill has sampled the pixels
/// `x_lo .. x_hi` of row `y`, left to right.
pub open spec fn fill_row(
    data: Seq<u8>,
    zbuf: Seq<i64>,
    width: int,
    height: int,
    f: Face<Vector3>,
    y: int,
    x_lo: int,
    x_hi: int,
) -> (Seq<u8>, Seq<i64>)
    decreases x_hi - x_lo,
{
    if x_hi <= x_lo {
        (data, zbuf)
    } else {
        let prev = fill_row(data, zbuf, width, height, f, y, x_lo, x_hi - 1);
        fill_cell(prev.0, prev.1, width, height, f, x_hi - 1, y)
    }
}

/// Both buffer planes after the fill has sampled the rows
/// `y_lo .. y_hi`, bottom to top, each over the pixels `x_lo .. x_hi`.
pub open spec fn fill_rows(
    data: Seq<u8>,
    zbuf: Seq<i64>,
    width: int,
    height: int,
    f: Face<Vector3>,
    x_lo: int,
    x_hi: int,
    y_lo: int,
    y_hi: int,
) -> (Seq<u8>, Seq<i64>)
    decreases y_hi - y_lo,
{
    if y_hi <= y_lo {
        (data, zbuf)
    } else {
        let prev = fill_rows(data, zbuf, width, height, f, x_lo, x_hi, y_lo, y_hi - 1);
        fill_row(prev.0, prev.1, width, height, f, y_hi - 1, x_lo, x_hi)
    }
}

/// A barycentric combination of values from `[lo, hi]` with weights
/// summing to the (positive) denominator stays in `[lo, hi]`.
proof fn lemma_weighted_avg3(
    u: int,
    v: int,
    w: int,
    d: int,
    a0: int,
    a1: int,
    a2: int,
    lo: int,
    hi: int,
)
    requires
        u >= 0,
        v >= 0,
        w >= 0,
        u + v + w == d,
        d > 0,
        lo <= a0 <= hi,
        lo <= a1 <= hi,
        lo <= a2 <= hi,
    ensures
        lo <= tdiv(u * a0 + v * a1 + w * a2, d) <= hi,
{
    assert(u * a0 <= u * hi && v * a1 <= v * hi && w * a2 <= w * hi && u * lo <= u * a0 && v * lo
        <= v * a1 && w * lo <= w * a2) by (nonlinear_arith)
        requires
            u >= 0,
            v >= 0,
            w >= 0,
            lo <= a0 <= hi,
            lo <= a1 <= hi,
            lo <= a2 <= hi,
    ;
    assert(u * hi + v * hi + w * hi == d * hi && u * lo + v * lo + w * lo == d * lo)
        by (nonlinear_arith)
        requires
            u + v + w == d,
    ;
    lemma_tdiv_is_ordered(u * a0 + v * a1 + w * a2, d * hi, d);
    lemma_tdiv_is_ordered(d * lo, u * a0 + v * a1 + w * a2, d);
    lemma_tdiv_multiple(hi, d);
    lemma_tdiv_multiple(lo, d);
}

/// The least of three raster coordinates.
fn min3i(a: i64, b: i64, c: i64) -> (r: i64)
    ensures
        r == min3(a as int, b as int, c as int),
{
    if a <= b && a <= c {
        a
    } else if b <= c {
        b
    } else {
        c
    }
}

/// The greatest of three raster coordinates.
fn max3i(a: i64, b: i64, c: i64) -> (r: i64)
    ensures
        r == max3(a as int, b as int, c as int),
{
    if a >= b && a >= c {
        a
    } else if b >= c {
        b
    } else {
        c
    }
}

impl Renderable for Face<Vector3> {
    /// The rasterizer accepts raster coordinates up to 8192 pixels in
    /// magnitude.
    open spec fn renderable(&self) -> bool {
        &&& vec2_bounded(raster_a(*self), 8192)
        &&& vec2_bounded(raster_b(*self), 8192)
        &&& vec2_bounded(raster_c(*self), 8192)
    }

    open spec fn spec_render_data(
        &self,
        data: Seq<u8>,
        zbuf: Seq<i64>,
        width: int,
        height: int,
    ) -> Seq<u8> {
        if tri_dropped(*self, width, height) {
            data
        } else {
            fill_rows(
                data,
                zbuf,
                width,
                height,
                *self,
                if tri_min_x(*self) < 0 { 0 } else { tri_min_x(*self) },
                tri_max_x(*self) + 1,
                if tri_min_y(*self) < 0 { 0 } else { tri_min_y(*self) },
                tri_max_y(*self) + 1,
            ).0
        }
    }

    open spec fn spec_render_zbuf(
        &self,
        data: Seq<u8>,
        zbuf: Seq<i64>,
        width: int,
        height: int,
    ) -> Seq<i64> {
        if tri_dropped(*self, width, height) {
            zbuf
        } else {
            fill_rows(
                data,
                zbuf,
                width,
                height,
                *self,
                if tri_min_x(*self) < 0 { 0 } else { tri_min_x(*self) },
                tri_max_x(*self) + 1,
                if tri_min_y(*self) < 0 { 0 } else { tri_min_y(*self) },
                tri_max_y(*self) + 1,
            ).1
        }
    }

    /// Fill the triangle: walk its clamped raster bounding box, test
    /// each pixel center's barycentric weights, and depth-test-write the
    /// interpolated depth and color for the pixels inside.
    fn render(&self, buffer: &mut DisplayBuffer) {
        let a = Vector2 { x: self.v0.position.x, y: self.v0.position.y };
        let b = Vector2 { x: self.v1.position.x, y: self.v1.position.y };
        let c = Vector2 { x: self.v2.position.x, y: self.v2.position.y };

        let min_x = min3i(a.x, b.x, c.x);
        let max_x = max3i(a.x, b.x, c.x);
        let min_y = min3i(a.y, b.y, c.y);
        let max_y = max3i(a.y, b.y, c.y);

        if (max_x >= 0 && max_x as usize >= buffer.width) || (max_y >= 0 && max_y as usize
            >= buffer.height) {
            return ;
        }

        let ghost f = *self;
        let ghost d0 = buffer.data@;
        let ghost z0 = buffer.z_buffer@;
        let ghost wi = buffer.width as int;
        let ghost hi_ = buffer.height as int;

        let x_lo: i64 = if min_x < 0 { 0 } else { min_x };
        let y_lo: i64 = if min_y < 0 { 0 } else { min_y };
        let x_hi: i64 = max_x + 1;
        let y_hi: i64 = max_y + 1;
        let x_end: i64 = if x_hi < x_lo { x_lo } else { x_hi };
        let y_end: i64 = if y_hi < y_lo { y_lo } else { y_hi };

        let mut y: i64 = y_lo;
        while y < y_end
            invariant
                buffer.wf(),
                buffer.width as int == wi,
                buffer.height as int == hi_,
                buffer.bpp == 4,
                self.renderable(),
                f == *self,
                a == raster_a(f),
                b == raster_b(f),
                c == raster_c(f),
                x_lo as int == (if tri_min_x(f) < 0 { 0 } else { tri_min_x(f) }),
                y_lo as int == (if tri_min_y(f) < 0 { 0 } else { tri_min_y(f) }),
                x_hi as int == tri_max_x(f) + 1,
                y_hi as int == tri_max_y(f) + 1,
                x_end as int == (if x_hi < x_lo { x_lo as int } else { x_hi as int }),
                y_end as int == (if y_hi < y_lo { y_lo as int } else { y_hi as int }),
                0 <= x_lo <= 8192,
                0 <= y_lo <= 8192,
                tri_max_x(f) < wi,
                tri_max_y(f) < hi_,
                y_lo <= y <= y_end,
                (buffer.data@, buffer.z_buffer@) == fill_rows(
                    d0,
                    z0,
                    wi,
                    hi_,
                    f,
                    x_lo as int,
                    x_hi as int,
                    y_lo as int,
                    y as int,
                ),
            decreases y_end - y,
        {
            let ghost rows = fill_rows(
                d0,
                z0,
                wi,
                hi_,
                f,
                x_lo as int,
                x_hi as int,
                y_lo as int,
                y as int,
            );
            let mut x: i64 = x_lo;
            while x < x_end
                invariant
                    buffer.wf(),
                    buffer.width as int == wi,
                    buffer.height as int == hi_,
                    buffer.bpp == 4,
                    self.renderable(),
                    f == *self,
                    a == raster_a(f),
                    b == raster_b(f),
                    c == raster_c(f),
                    x_lo as int == (if tri_min_x(f) < 0 { 0 } else { tri_min_x(f) }),
                    x_hi as int == tri_max_x(f) + 1,
                    x_end as int == (if x_hi < x_lo { x_lo as int } else { x_hi as int }),
                    0 <= x_lo <= 8192,
                    0 <= y_lo <= 8192,
                    tri_max_x(f) < wi,
                    tri_max_y(f) < hi_,
                    y_lo <= y < y_end,
                    y_end as int == (if y_hi < y_lo { y_lo as int } else { y_hi as int }),
                    y_hi as int == tri_max_y(f) + 1,
                    x_lo <= x <= x_end,
                    rows == fill_rows(
                        d0,
                        z0,
                        wi,
                        hi_,
                        f,
                        x_lo as int,
                        x_hi as int,
                        y_lo as int,
                        y as int,
                    ),
                    (buffer.data@, buffer.z_buffer@) == fill_row(
                        rows.0,
                        rows.1,
                        wi,
                        hi_,
                        f,
                        y as int,
                        x_lo as int,
                        x as int,
                    ),
                decreases x_end - x,
            {
                let ghost before_data = buffer.data@;
                let ghost before_zbuf = buffer.z_buffer@;
                let p = Vector2 { x, y };
                proof {
                    assert(0 <= x <= 8192);
                    assert(0 <= y <= 8192);
                }
                let bary = get_barycentric(a, b, c, p);
                if bary.denom > 0 && bary.u_num >= 0 && bary.v_num >= 0 && bary.w_num >= 0 {
                    proof {
                        assert(tri_inside(f, x as int, y as int));
                        lemma_mul_bound2(
                            bary.u_num as int,
                            self.v0.position.z as int,
                            0x2000000000000000,
                            0x8000000000000000,
                        );
                        lemma_mul_bound2(
                            bary.v_num as int,
                            self.v1.position.z as int,
                            0x2000000000000000,
                            0x8000000000000000,
                        );
                        lemma_mul_bound2(
                            bary.w_num as int,
                            self.v2.position.z as int,
                            0x2000000000000000,
                            0x8000000000000000,
                        );
                        lemma_mul_bound2(bary.u_num as int, self.v0.color.r as int,
                            0x2000000000000000, 255);
                        lemma_mul_bound2(bary.v_num as int, self.v1.color.r as int,
                            0x2000000000000000, 255);
                        lemma_mul_bound2(bary.w_num as int, self.v2.color.r as int,
                            0x2000000000000000, 255);
                        lemma_mul_bound2(bary.u_num as int, self.v0.color.g as int,
                            0x2000000000000000, 255);
                        lemma_mul_bound2(bary.v_num as int, self.v1.color.g as int,
                            0x2000000000000000, 255);
                        lemma_mul_bound2(bary.w_num as int, self.v2.color.g as int,
                            0x2000000000000000, 255);
                        lemma_mul_bound2(bary.u_num as int, self.v0.color.b as int,
                            0x2000000000000000, 255);
                        lemma_mul_bound2(bary.v_num as int, self.v1.color.b as int,
                            0x2000000000000000, 255);
                        lemma_mul_bound2(bary.w_num as int, self.v2.color.b as int,
                            0x2000000000000000, 255);
                        lemma_weighted_avg3(
                            bary.u_num as int,
                            bary.v_num as int,
                            bary.w_num as int,
                            bary.denom as int,
                            self.v0.position.z as int,
                            self.v1.position.z as int,
                            self.v2.position.z as int,
                            i64::MIN as int,
                            i64::MAX as int,
                        );
                        lemma_weighted_avg3(
                            bary.u_num as int,
                            bary.v_num as int,
                            bary.w_num as int,
                            bary.denom as int,
                            self.v0.color.r as int,
                            self.v1.color.r as int,
                            self.v2.color.r as int,
                            0,
                            255,
                        );
                        lemma_weighted_avg3(
                            bary.u_num as int,
                            bary.v_num as int,
                            bary.w_num as int,
                            bary.denom as int,
                            self.v0.color.g as int,
                            self.v1.color.g as int,
                            self.v2.color.g as int,
                            0,
                            255,
                        );
                        lemma_weighted_avg3(
                            bary.u_num as int,
                            bary.v_num as int,
                            bary.w_num as int,
                            bary.denom as int,
                            self.v0.color.b as int,
                            self.v1.color.b as int,
                            self.v2.color.b as int,
                            0,
                            255,
                        );
                    }
                    let u = bary.u_num as i128;
                    let v = bary.v_num as i128;
                    let w = bary.w_num as i128;
                    let d = bary.denom as i128;
                    let z: i64 = tdiv128(
                        u * (self.v0.position.z as i128) + v * (self.v1.position.z as i128) + w
                            * (self.v2.position.z as i128),
                        d,
                    ) as i64;
                    let color = Color {
                        r: tdiv128(
                            u * (self.v0.color.r as i128) + v * (self.v1.color.r as i128) + w
                                * (self.v2.color.r as i128),
                            d,
                        ) as u8,
                        g: tdiv128(
                            u * (self.v0.color.g as i128) + v * (self.v1.color.g as i128) + w
                                * (self.v2.color.g as i128),
                            d,
                        ) as u8,
                        b: tdiv128(
                            u * (self.v0.color.b as i128) + v * (self.v1.color.b as i128) + w
                                * (self.v2.color.b as i128),
                            d,
                        ) as u8,
                        a: 255,
                    };
                    proof {
                        assert(z as int == tri_z(f, x as int, y as int));
                        assert(color == tri_color(f, x as int, y as int));
                    }
                    buffer.set_pixel(x as usize, y as usize, z, color);
                    proof {
                        assert((buffer.data@, buffer.z_buffer@) == fill_cell(
                            before_data,
                            before_zbuf,
                            wi,
                            hi_,
                            f,
                            x as int,
                            y as int,
                        ));
                    }
                } else {
                    proof {
                        assert(!tri_inside(f, x as int, y as int));
                    }
                }
                x = x + 1;
            }
            proof {
                if x_hi < x_lo {
                    assert(fill_row(rows.0, rows.1, wi, hi_, f, y as int, x_lo as int, x_end
                        as int) == fill_row(
                        rows.0,
                        rows.1,
                        wi,
                        hi_,
                        f,
                        y as int,
                        x_lo as int,
                        x_hi as int,
                    ));
                }
            }
            y = y + 1;
        }
        proof {
            if y_hi < y_lo {
                assert(fill_rows(d0, z0, wi, hi_, f, x_lo as int, x_hi as int, y_lo as int, y_end
                    as int) == fill_rows(
                    d0,
                    z0,
                    wi,
                    hi_,
                    f,
                    x_lo as int,
                    x_hi as int,
                    y_lo as int,
                    y_hi as int,
                ));
            }
        }
    }
}

/// The x step direction of a line: toward `x1`.
pub open spec fn bres_sx(x0: int, x1: int) -> int {
    if x0 < x1 {
        1
    } else {
        -1
    }
}

/// The y step direction of a line: toward `y1`.
pub open spec fn bres_sy(y0: int, y1: int) -> int {
    if y0 < y1 {
        1
    } else {
        -1
    }
}

/// The absolute x span of a line.
pub open spec fn bres_dx(x0: int, x1: int) -> int {
    if x1 >= x0 {
        x1 - x0
    } else {
        x0 - x1
    }
}

/// The negated absolute y span of a line, as Bresenham's error
/// accumulator uses it.
pub open spec fn bres_dy(y0: int, y1: int) -> int {
    if y1 >= y0 {
        y0 - y1
    } else {
        y1 - y0
    }
}

/// The Bresenham walk state (x, y, err) after `i` steps from the start
/// of the line: each step doubles the error accumulator, steps x where
/// `2 err >= dy` and y where `2 err <= dx`, folding the spans back into
/// the accumulator.
pub open spec fn bres_state(x0: int, y0: int, x1: int, y1: int, i: nat) -> (int, int, int)
    decreases i,
{
    let dx = bres_dx(x0, x1);
    let dy = bres_dy(y0, y1);
    if i == 0 {
        (x0, y0, dx + dy)
    } else {
        let prev = bres_state(x0, y0, x1, y1, (i - 1) as nat);
        let e2 = 2 * prev.2;
        let xn = if e2 >= dy {
            prev.0 + bres_sx(x0, x1)
        } else {
            prev.0
        };
        let yn = if e2 <= dx {
            prev.1 + bres_sy(y0, y1)
        } else {
            prev.1
        };
        let en = prev.2 + (if e2 >= dy {
            dy
        } else {
            0
        }) + (if e2 <= dx {
            dx
        } else {
            0
        });
        (xn, yn, en)
    }
}

/// Both buffer planes after one line pixel at (x, y) is plotted: a
/// depth-tested write when the pixel is inside the buffer, nothing
/// otherwise.
pub open spec fn plot_cell(
    data: Seq<u8>,
    zbuf: Seq<i64>,
    width: int,
    height: int,
    x: int,
    y: int,
    z: i64,
    c: Color,
) -> (Seq<u8>, Seq<i64>) {
    if 0 <= x && x < width && 0 <= y && y < height {
        let i = pixel_index(width, height, x, y);
        (data_after(data, zbuf, i, z, c), zbuf_after(zbuf, i, z))
    } else {
        (data, zbuf)
    }
}

/// Both buffer planes after the first `i + 1` pixels of the Bresenham
/// walk have been plotted.
pub open spec fn line_bufs(
    data: Seq<u8>,
    zbuf: Seq<i64>,
    width: int,
    height: int,
    x0: int,
    y0: int,
    x1: int,
    y1: int,
    z: i64,
    c: Color,
    i: nat,
) -> (Seq<u8>, Seq<i64>)
    decreases i,
{
    let st = bres_state(x0, y0, x1, y1, i);
    if i == 0 {
        plot_cell(data, zbuf, width, height, st.0, st.1, z, c)
    } else {
        let prev = line_bufs(data, zbuf, width, height, x0, y0, x1, y1, z, c, (i - 1) as nat);
        plot_cell(prev.0, prev.1, width, height, st.0, st.1, z, c)
    }
}

/// The number of Bresenham steps for a line: the larger of the two
/// coordinate spans (one more pixel than steps is plotted).
pub open spec fn bres_steps(x0: int, y0: int, x1: int, y1: int) -> int {
    if bres_dx(x0, x1) >= -bres_dy(y0, y1) {
        bres_dx(x0, x1)
    } else {
        -bres_dy(y0, y1)
    }
}

/// Draw a straight line from (x0, y0) to (x1, y1) with integer
/// Bresenham stepping: error accumulator and sign-selected unit steps.
/// Every visited pixel that lies inside the buffer is written through
/// the depth-tested `set_pixel`; pixels outside are skipped.
pub fn draw_line(
    buffer: &mut DisplayBuffer,
    x0: i64,
    y0: i64,
    x1: i64,
    y1: i64,
    z: i64,
    color: Color,
)
    requires
        old(buffer).wf(),
        -8192 <= x0 <= 8192,
        -8192 <= y0 <= 8192,
        -8192 <= x1 <= 8192,
        -8192 <= y1 <= 8192,
    ensures
        final(buffer).wf(),
        final(buffer).width == old(buffer).width,
        final(buffer).height == old(buffer).height,
        final(buffer).bpp == old(buffer).bpp,
        (final(buffer).data@, final(buffer).z_buffer@) == line_bufs(
            old(buffer).data@,
            old(buffer).z_buffer@,
            old(buffer).width as int,
            old(buffer).height as int,
            x0 as int,
            y0 as int,
            x1 as int,
            y1 as int,
            z,
            color,
            bres_steps(x0 as int, y0 as int, x1 as int, y1 as int) as nat,
        ),
{
    let ghost d0 = buffer.data@;
    let ghost z0 = buffer.z_buffer@;
    let ghost wi = buffer.width as int;
    let ghost hi_ = buffer.height as int;

    let dx: i64 = if x1 >= x0 {
        x1 - x0
    } else {
        x0 - x1
    };
    let dy: i64 = if y1 >= y0 {
        y0 - y1
    } else {
        y1 - y0
    };
    let sx: i64 = if x0 < x1 {
        1
    } else {
        -1
    };
    let sy: i64 = if y0 < y1 {
        1
    } else {
        -1
    };
    let n: i64 = if dx >= -dy {
        dx
    } else {
        -dy
    };

    let mut x: i64 = x0;
    let mut y: i64 = y0;
    let mut err: i64 = dx + dy;

    if x >= 0 && y >= 0 && (x as usize) < buffer.width && (y as usize) < buffer.height {
        buffer.set_pixel(x as usize, y as usize, z, color);
    }

    let mut i: i64 = 0;
    while i < n
        invariant
            buffer.wf(),
            buffer.width as int == wi,
            buffer.height as int == hi_,
            buffer.bpp == old(buffer).bpp,
            -8192 <= x0 <= 8192,
            -8192 <= y0 <= 8192,
            -8192 <= x1 <= 8192,
            -8192 <= y1 <= 8192,
            dx as int == bres_dx(x0 as int, x1 as int),
            dy as int == bres_dy(y0 as int, y1 as int),
            sx as int == bres_sx(x0 as int, x1 as int),
            sy as int == bres_sy(y0 as int, y1 as int),
            n as int == bres_steps(x0 as int, y0 as int, x1 as int, y1 as int),
            0 <= i <= n,
            n <= 16384,
            -8192 - i <= x <= 8192 + i,
            -8192 - i <= y <= 8192 + i,
            -32768 - i * 32768 <= err <= 32768 + i * 32768,
            (x as int, y as int, err as int) == bres_state(
                x0 as int,
                y0 as int,
                x1 as int,
                y1 as int,
                i as nat,
            ),
            (buffer.data@, buffer.z_buffer@) == line_bufs(
                d0,
                z0,
                wi,
                hi_,
                x0 as int,
                y0 as int,
                x1 as int,
                y1 as int,
                z,
                color,
                i as nat,
            ),
        decreases n - i,
    {
        let e2: i64 = 2 * err;
        if e2 >= dy {
            err = err + dy;
            x = x + sx;
        }
        if e2 <= dx {
            err = err + dx;
            y = y + sy;
        }
        proof {
            assert((x as int, y as int, err as int) == bres_state(
                x0 as int,
                y0 as int,
                x1 as int,
                y1 as int,
                (i + 1) as nat,
            ));
        }
        let ghost before_data = buffer.data@;
        let ghost before_zbuf = buffer.z_buffer@;
        if x >= 0 && y >= 0 && (x as usize) < buffer.width && (y as usize) < buffer.height {
            buffer.set_pixel(x as usize, y as usize, z, color);
        }
        proof {
            assert((buffer.data@, buffer.z_buffer@) == plot_cell(
                before_data,
                before_zbuf,
                wi,
                hi_,
                x as int,
                y as int,
                z,
                color,
            ));
        }
        i = i + 1;
    }
}

/// A straight line segment as a drawable primitive: endpoints in raster
/// space, one depth, one color.
pub struct LineSegment {
    pub x0: i64,
    pub y0: i64,
    pub x1: i64,
    pub y1: i64,
    pub z: i64,
    pub color: Color,
}

impl Renderable for LineSegment {
    /// The rasterizer accepts raster coordinates up to 8192 pixels in
    /// magnitude.
    open spec fn renderable(&self) -> bool {
        &&& -8192 <= self.x0 <= 8192
        &&& -8192 <= self.y0 <= 8192
        &&& -8192 <= self.x1 <= 8192
        &&& -8192 <= self.y1 <= 8192
    }

    open spec fn spec_render_data(
        &self,
        data: Seq<u8>,
        zbuf: Seq<i64>,
        width: int,
        height: int,
    ) -> Seq<u8> {
        line_bufs(
            data,
            zbuf,
            width,
            height,
            self.x0 as int,
            self.y0 as int,
            self.x1 as int,
            self.y1 as int,
            self.z,
            self.color,
            bres_steps(self.x0 as int, self.y0 as int, self.x1 as int, self.y1 as int) as nat,
        ).0
    }

    open spec fn spec_render_zbuf(
        &self,
        data: Seq<u8>,
        zbuf: Seq<i64>,
        width: int,
        height: int,
    ) -> Seq<i64> {
        line_bufs(
            data,
            zbuf,
            width,
            height,
            self.x0 as int,
            self.y0 as int,
            self.x1 as int,
            self.y1 as int,
            self.z,
            self.color,
            bres_steps(self.x0 as int, self.y0 as int, self.x1 as int, self.y1 as int) as nat,
        ).1
    }

    /// Draw the segment with Bresenham stepping.
    fn render(&self, buffer: &mut DisplayBuffer) {
        draw_line(buffer, self.x0, self.y0, self.x1, self.y1, self.z, self.color);
    }
}

} // verus!
