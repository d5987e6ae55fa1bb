//! Homogeneous 4-vectors, 4x4 transformation matrices and the
//! constructors of the model / view / projection pipeline, all in
//! fixed-point arithmetic.
//!
//! Matrices are row-major; vectors are columns, multiplied from the
//! right. Points carry `w == FX_ONE` (the fixed-point one), directions
//! `w == 0`.

use vstd::prelude::*;
use crate::fx::{tdiv, sdiv, FX_ONE, tdiv128, fx_mul_spec, fx_div_spec, fx_mul, fx_div};
use crate::fx::{lemma_tdiv_bound, lemma_tdiv_is_ordered, lemma_tdiv_multiple, lemma_sdiv_le, lemma_ge_one_mul};
use crate::vector::{Vector3, vec3_bounded, dot3_spec, cross3_x_spec, cross3_y_spec, cross3_z_spec, len_sq_spec, normalize_comp_spec};

verus! {

/// A homogeneous 4D vector in fixed-point.
#[derive(Copy, Clone)]
pub struct Vector4 {
    pub x: i64,
    pub y: i64,
    pub z: i64,
    pub w: i64,
}

/// A row-major 4x4 matrix of fixed-point values.
#[derive(Copy, Clone)]
pub struct Matrix4 {
    pub m00: i64, pub m01: i64, pub m02: i64, pub m03: i64,
    pub m10: i64, pub m11: i64, pub m12: i64, pub m13: i64,
    pub m20: i64, pub m21: i64, pub m22: i64, pub m23: i64,
    pub m30: i64, pub m31: i64, pub m32: i64, pub m33: i64,
}

/// Every entry of `m` lies in `[-b, b]`.
pub open spec fn mat4_bounded(m: Matrix4, b: int) -> bool {
    &&& -b <= m.m00 <= b
    &&& -b <= m.m01 <= b
    &&& -b <= m.m02 <= b
    &&& -b <= m.m03 <= b
    &&& -b <= m.m10 <= b
    &&& -b <= m.m11 <= b
    &&& -b <= m.m12 <= b
    &&& -b <= m.m13 <= b
    &&& -b <= m.m20 <= b
    &&& -b <= m.m21 <= b
    &&& -b <= m.m22 <= b
    &&& -b <= m.m23 <= b
    &&& -b <= m.m30 <= b
    &&& -b <= m.m31 <= b
    &&& -b <= m.m32 <= b
    &&& -b <= m.m33 <= b
}

/// Every component of `v` lies in `[-b, b]`.
pub open spec fn vec4_bounded(v: Vector4, b: int) -> bool {
    &&& -b <= v.x <= b
    &&& -b <= v.y <= b
    &&& -b <= v.z <= b
    &&& -b <= v.w <= b
}

/// A fixed-point length-4 dot product: the sum of the raw products,
/// rescaled back by one factor of the fixed-point scale.
pub open spec fn dot4_spec(
    a0: i64, a1: i64, a2: i64, a3: i64,
    b0: i64, b1: i64, b2: i64, b3: i64,
) -> int {
    tdiv(a0 * b0 + a1 * b1 + a2 * b2 + a3 * b3, FX_ONE as int)
}

/// The fixed-point matrix product, entry by entry.
pub open spec fn mat4_mul_spec(a: Matrix4, b: Matrix4) -> Matrix4 {
    Matrix4 {
        m00: dot4_spec(a.m00, a.m01, a.m02, a.m03, b.m00, b.m10, b.m20, b.m30) as i64,
        m01: dot4_spec(a.m00, a.m01, a.m02, a.m03, b.m01, b.m11, b.m21, b.m31) as i64,
        m02: dot4_spec(a.m00, a.m01, a.m02, a.m03, b.m02, b.m12, b.m22, b.m32) as i64,
        m03: dot4_spec(a.m00, a.m01, a.m02, a.m03, b.m03, b.m13, b.m23, b.m33) as i64,
        m10: dot4_spec(a.m10, a.m11, a.m12, a.m13, b.m00, b.m10, b.m20, b.m30) as i64,
        m11: dot4_spec(a.m10, a.m11, a.m12, a.m13, b.m01, b.m11, b.m21, b.m31) as i64,
        m12: dot4_spec(a.m10, a.m11, a.m12, a.m13, b.m02, b.m12, b.m22, b.m32) as i64,
        m13: dot4_spec(a.m10, a.m11, a.m12, a.m13, b.m03, b.m13, b.m23, b.m33) as i64,
        m20: dot4_spec(a.m20, a.m21, a.m22, a.m23, b.m00, b.m10, b.m20, b.m30) as i64,
        m21: dot4_spec(a.m20, a.m21, a.m22, a.m23, b.m01, b.m11, b.m21, b.m31) as i64,
        m22: dot4_spec(a.m20, a.m21, a.m22, a.m23, b.m02, b.m12, b.m22, b.m32) as i64,
        m23: dot4_spec(a.m20, a.m21, a.m22, a.m23, b.m03, b.m13, b.m23, b.m33) as i64,
        m30: dot4_spec(a.m30, a.m31, a.m32, a.m33, b.m00, b.m10, b.m20, b.m30) as i64,
        m31: dot4_spec(a.m30, a.m31, a.m32, a.m33, b.m01, b.m11, b.m21, b.m31) as i64,
        m32: dot4_spec(a.m30, a.m31, a.m32, a.m33, b.m02, b.m12, b.m22, b.m32) as i64,
        m33: dot4_spec(a.m30, a.m31, a.m32, a.m33, b.m03, b.m13, b.m23, b.m33) as i64,
    }
}

/// The fixed-point matrix-vector product.
pub open spec fn mat4_vec_spec(m: Matrix4, v: Vector4) -> Vector4 {
    Vector4 {
        x: dot4_spec(m.m00, m.m01, m.m02, m.m03, v.x, v.y, v.z, v.w) as i64,
        y: dot4_spec(m.m10, m.m11, m.m12, m.m13, v.x, v.y, v.z, v.w) as i64,
        z: dot4_spec(m.m20, m.m21, m.m22, m.m23, v.x, v.y, v.z, v.w) as i64,
        w: dot4_spec(m.m30, m.m31, m.m32, m.m33, v.x, v.y, v.z, v.w) as i64,
    }
}

/// The product of two values bounded by `bx` and `by` is bounded by
/// `bx * by`.
proof fn lemma_mul_bound2m(x: int, y: int, bx: int, by: int)
    by (nonlinear_arith)
    requires
        -bx <= x <= bx,
        -by <= y <= by,
        0 <= bx,
        0 <= by,
    ensures
        -(bx * by) <= x * y <= bx * by,
{
}

/// A fixed-point dot product of values bounded by `ba` and `bb` is
/// bounded by any `m` with `4 * (ba * bb) <= m * FX_ONE`.
proof fn lemma_dot4_bound(
    a0: int, a1: int, a2: int, a3: int,
    b0: int, b1: int, b2: int, b3: int,
    ba: int, bb: int, m: int,
)
    requires
        -ba <= a0 <= ba, -ba <= a1 <= ba, -ba <= a2 <= ba, -ba <= a3 <= ba,
        -bb <= b0 <= bb, -bb <= b1 <= bb, -bb <= b2 <= bb, -bb <= b3 <= bb,
        0 <= ba, 0 <= bb, 0 <= m,
        4 * (ba * bb) <= m * FX_ONE,
    ensures
        -m <= tdiv(a0 * b0 + a1 * b1 + a2 * b2 + a3 * b3, FX_ONE as int) <= m,
{
    lemma_mul_bound2m(a0, b0, ba, bb);
    lemma_mul_bound2m(a1, b1, ba, bb);
    lemma_mul_bound2m(a2, b2, ba, bb);
    lemma_mul_bound2m(a3, b3, ba, bb);
    assert(m * FX_ONE >= 0) by (nonlinear_arith)
        requires
            0 <= m,
            FX_ONE == 65536,
    ;
    lemma_tdiv_bound(a0 * b0 + a1 * b1 + a2 * b2 + a3 * b3, FX_ONE as int, m);
}

/// Entry bounds of a fixed-point matrix product, from entry bounds of
/// its factors.
pub proof fn lemma_mat4_mul_bounded(a: Matrix4, b: Matrix4, ba: int, bb: int, m: int)
    requires
        mat4_bounded(a, ba),
        mat4_bounded(b, bb),
        0 <= ba,
        0 <= bb,
        0 <= m <= i64::MAX,
        4 * (ba * bb) <= m * FX_ONE,
    ensures
        mat4_bounded(mat4_mul_spec(a, b), m),
{
    lemma_dot4_bound(a.m00 as int, a.m01 as int, a.m02 as int, a.m03 as int, b.m00 as int, b.m10 as int, b.m20 as int, b.m30 as int, ba, bb, m);
    lemma_dot4_bound(a.m00 as int, a.m01 as int, a.m02 as int, a.m03 as int, b.m01 as int, b.m11 as int, b.m21 as int, b.m31 as int, ba, bb, m);
    lemma_dot4_bound(a.m00 as int, a.m01 as int, a.m02 as int, a.m03 as int, b.m02 as int, b.m12 as int, b.m22 as int, b.m32 as int, ba, bb, m);
    lemma_dot4_bound(a.m00 as int, a.m01 as int, a.m02 as int, a.m03 as int, b.m03 as int, b.m13 as int, b.m23 as int, b.m33 as int, ba, bb, m);
    lemma_dot4_bound(a.m10 as int, a.m11 as int, a.m12 as int, a.m13 as int, b.m00 as int, b.m10 as int, b.m20 as int, b.m30 as int, ba, bb, m);
    lemma_dot4_bound(a.m10 as int, a.m11 as int, a.m12 as int, a.m13 as int, b.m01 as int, b.m11 as int, b.m21 as int, b.m31 as int, ba, bb, m);
    lemma_dot4_bound(a.m10 as int, a.m11 as int, a.m12 as int, a.m13 as int, b.m02 as int, b.m12 as int, b.m22 as int, b.m32 as int, ba, bb, m);
    lemma_dot4_bound(a.m10 as int, a.m11 as int, a.m12 as int, a.m13 as int, b.m03 as int, b.m13 as int, b.m23 as int, b.m33 as int, ba, bb, m);
    lemma_dot4_bound(a.m20 as int, a.m21 as int, a.m22 as int, a.m23 as int, b.m00 as int, b.m10 as int, b.m20 as int, b.m30 as int, ba, bb, m);
    lemma_dot4_bound(a.m20 as int, a.m21 as int, a.m22 as int, a.m23 as int, b.m01 as int, b.m11 as int, b.m21 as int, b.m31 as int, ba, bb, m);
    lemma_dot4_bound(a.m20 as int, a.m21 as int, a.m22 as int, a.m23 as int, b.m02 as int, b.m12 as int, b.m22 as int, b.m32 as int, ba, bb, m);
    lemma_dot4_bound(a.m20 as int, a.m21 as int, a.m22 as int, a.m23 as int, b.m03 as int, b.m13 as int, b.m23 as int, b.m33 as int, ba, bb, m);
    lemma_dot4_bound(a.m30 as int, a.m31 as int, a.m32 as int, a.m33 as int, b.m00 as int, b.m10 as int, b.m20 as int, b.m30 as int, ba, bb, m);
    lemma_dot4_bound(a.m30 as int, a.m31 as int, a.m32 as int, a.m33 as int, b.m01 as int, b.m11 as int, b.m21 as int, b.m31 as int, ba, bb, m);
    lemma_dot4_bound(a.m30 as int, a.m31 as int, a.m32 as int, a.m33 as int, b.m02 as int, b.m12 as int, b.m22 as int, b.m32 as int, ba, bb, m);
    lemma_dot4_bound(a.m30 as int, a.m31 as int, a.m32 as int, a.m33 as int, b.m03 as int, b.m13 as int, b.m23 as int, b.m33 as int, ba, bb, m);
}

/// Component bounds of a fixed-point matrix-vector product.
pub proof fn lemma_mat4_vec_bounded(a: Matrix4, v: Vector4, ba: int, bb: int, m: int)
    requires
        mat4_bounded(a, ba),
        vec4_bounded(v, bb),
        0 <= ba,
        0 <= bb,
        0 <= m <= i64::MAX,
        4 * (ba * bb) <= m * FX_ONE,
    ensures
        vec4_bounded(mat4_vec_spec(a, v), m),
{
    lemma_dot4_bound(a.m00 as int, a.m01 as int, a.m02 as int, a.m03 as int, v.x as int, v.y as int, v.z as int, v.w as int, ba, bb, m);
    lemma_dot4_bound(a.m10 as int, a.m11 as int, a.m12 as int, a.m13 as int, v.x as int, v.y as int, v.z as int, v.w as int, ba, bb, m);
    lemma_dot4_bound(a.m20 as int, a.m21 as int, a.m22 as int, a.m23 as int, v.x as int, v.y as int, v.z as int, v.w as int, ba, bb, m);
    lemma_dot4_bound(a.m30 as int, a.m31 as int, a.m32 as int, a.m33 as int, v.x as int, v.y as int, v.z as int, v.w as int, ba, bb, m);
}

/// A fixed-point length-4 dot product, with ghost magnitude bounds
/// small enough that the rescaled result fits an `i64`.
fn fx_dot4(
    a0: i64, a1: i64, a2: i64, a3: i64,
    b0: i64, b1: i64, b2: i64, b3: i64,
    Ghost(ba): Ghost<int>,
    Ghost(bb): Ghost<int>,
) -> (r: i64)
    requires
        -ba <= a0 <= ba, -ba <= a1 <= ba, -ba <= a2 <= ba, -ba <= a3 <= ba,
        -bb <= b0 <= bb, -bb <= b1 <= bb, -bb <= b2 <= bb, -bb <= b3 <= bb,
        0 <= ba, 0 <= bb,
        4 * (ba * bb) <= (i64::MAX as int) * (FX_ONE as int),
    ensures
        r as int == dot4_spec(a0, a1, a2, a3, b0, b1, b2, b3),
{
    proof {
        lemma_mul_bound2m(a0 as int, b0 as int, ba, bb);
        lemma_mul_bound2m(a1 as int, b1 as int, ba, bb);
        lemma_mul_bound2m(a2 as int, b2 as int, ba, bb);
        lemma_mul_bound2m(a3 as int, b3 as int, ba, bb);
        lemma_dot4_bound(
            a0 as int, a1 as int, a2 as int, a3 as int,
            b0 as int, b1 as int, b2 as int, b3 as int,
            ba, bb, i64::MAX as int,
        );
    }
    let s: i128 = (a0 as i128) * (b0 as i128) + (a1 as i128) * (b1 as i128) + (a2 as i128) * (b2
        as i128) + (a3 as i128) * (b3 as i128);
    tdiv128(s, FX_ONE as i128) as i64
}

impl Matrix4 {
    /// The fixed-point matrix product `self * other`, entry by entry
    /// the fixed-point dot product of a row with a column.
    pub fn mul(&self, other: &Matrix4) -> (r: Matrix4)
        requires
            mat4_bounded(*self, 0x4000000000),
            mat4_bounded(*other, 0x4000000000),
        ensures
            r == mat4_mul_spec(*self, *other),
    {
        Matrix4 {
            m00: fx_dot4(self.m00, self.m01, self.m02, self.m03, other.m00, other.m10, other.m20, other.m30, Ghost(0x4000000000), Ghost(0x4000000000)),
            m01: fx_dot4(self.m00, self.m01, self.m02, self.m03, other.m01, other.m11, other.m21, other.m31, Ghost(0x4000000000), Ghost(0x4000000000)),
            m02: fx_dot4(self.m00, self.m01, self.m02, self.m03, other.m02, other.m12, other.m22, other.m32, Ghost(0x4000000000), Ghost(0x4000000000)),
            m03: fx_dot4(self.m00, self.m01, self.m02, self.m03, other.m03, other.m13, other.m23, other.m33, Ghost(0x4000000000), Ghost(0x4000000000)),
            m10: fx_dot4(self.m10, self.m11, self.m12, self.m13, other.m00, other.m10, other.m20, other.m30, Ghost(0x4000000000), Ghost(0x4000000000)),
            m11: fx_dot4(self.m10, self.m11, self.m12, self.m13, other.m01, other.m11, other.m21, other.m31, Ghost(0x4000000000), Ghost(0x4000000000)),
            m12: fx_dot4(self.m10, self.m11, self.m12, self.m13, other.m02, other.m12, other.m22, other.m32, Ghost(0x4000000000), Ghost(0x4000000000)),
            m13: fx_dot4(self.m10, self.m11, self.m12, self.m13, other.m03, other.m13, other.m23, other.m33, Ghost(0x4000000000), Ghost(0x4000000000)),
            m20: fx_dot4(self.m20, self.m21, self.m22, self.m23, other.m00, other.m10, other.m20, other.m30, Ghost(0x4000000000), Ghost(0x4000000000)),
            m21: fx_dot4(self.m20, self.m21, self.m22, self.m23, other.m01, other.m11, other.m21, other.m31, Ghost(0x4000000000), Ghost(0x4000000000)),
            m22: fx_dot4(self.m20, self.m21, self.m22, self.m23, other.m02, other.m12, other.m22, other.m32, Ghost(0x4000000000), Ghost(0x4000000000)),
            m23: fx_dot4(self.m20, self.m21, self.m22, self.m23, other.m03, other.m13, other.m23, other.m33, Ghost(0x4000000000), Ghost(0x4000000000)),
            m30: fx_dot4(self.m30, self.m31, self.m32, self.m33, other.m00, other.m10, other.m20, other.m30, Ghost(0x4000000000), Ghost(0x4000000000)),
            m31: fx_dot4(self.m30, self.m31, self.m32, self.m33, other.m01, other.m11, other.m21, other.m31, Ghost(0x4000000000), Ghost(0x4000000000)),
            m32: fx_dot4(self.m30, self.m31, self.m32, self.m33, other.m02, other.m12, other.m22, other.m32, Ghost(0x4000000000), Ghost(0x4000000000)),
            m33: fx_dot4(self.m30, self.m31, self.m32, self.m33, other.m03, other.m13, other.m23, other.m33, Ghost(0x4000000000), Ghost(0x4000000000)),
        }
    }

    /// The fixed-point matrix-vector product `self * v`.
    pub fn mul_vec(&self, v: Vector4) -> (r: Vector4)
        requires
            mat4_bounded(*self, 0x40000000),
            vec4_bounded(v, 0x400000000),
        ensures
            r == mat4_vec_spec(*self, v),
    {
        Vector4 {
            x: fx_dot4(self.m00, self.m01, self.m02, self.m03, v.x, v.y, v.z, v.w, Ghost(0x40000000), Ghost(0x400000000)),
            y: fx_dot4(self.m10, self.m11, self.m12, self.m13, v.x, v.y, v.z, v.w, Ghost(0x40000000), Ghost(0x400000000)),
            z: fx_dot4(self.m20, self.m21, self.m22, self.m23, v.x, v.y, v.z, v.w, Ghost(0x40000000), Ghost(0x400000000)),
            w: fx_dot4(self.m30, self.m31, self.m32, self.m33, v.x, v.y, v.z, v.w, Ghost(0x40000000), Ghost(0x400000000)),
        }
    }
}

/// The matrix that translates points by (x, y, z) and fixes directions.
pub open spec fn translation_spec(x: i64, y: i64, z: i64) -> Matrix4 {
    Matrix4 {
        m00: FX_ONE, m01: 0, m02: 0, m03: x,
        m10: 0, m11: FX_ONE, m12: 0, m13: y,
        m20: 0, m21: 0, m22: FX_ONE, m23: z,
        m30: 0, m31: 0, m32: 0, m33: FX_ONE,
    }
}

/// The rotation about the x axis with the given fixed-point cosine and
/// sine.
pub open spec fn rotation_x_spec(c: i64, s: i64) -> Matrix4 {
    Matrix4 {
        m00: FX_ONE, m01: 0, m02: 0, m03: 0,
        m10: 0, m11: c, m12: s, m13: 0,
        m20: 0, m21: (-(s as int)) as i64, m22: c, m23: 0,
        m30: 0, m31: 0, m32: 0, m33: FX_ONE,
    }
}

/// The rotation about the y axis with the given fixed-point cosine and
/// sine.
pub open spec fn rotation_y_spec(c: i64, s: i64) -> Matrix4 {
    Matrix4 {
        m00: c, m01: 0, m02: (-(s as int)) as i64, m03: 0,
        m10: 0, m11: FX_ONE, m12: 0, m13: 0,
        m20: s, m21: 0, m22: c, m23: 0,
        m30: 0, m31: 0, m32: 0, m33: FX_ONE,
    }
}

/// The rotation about the z axis with the given fixed-point cosine and
/// sine.
pub open spec fn rotation_z_spec(c: i64, s: i64) -> Matrix4 {
    Matrix4 {
        m00: c, m01: (-(s as int)) as i64, m02: 0, m03: 0,
        m10: s, m11: c, m12: 0, m13: 0,
        m20: 0, m21: 0, m22: FX_ONE, m23: 0,
        m30: 0, m31: 0, m32: 0, m33: FX_ONE,
    }
}

/// Build the translation matrix.
pub fn translation(x: i64, y: i64, z: i64) -> (r: Matrix4)
    ensures
        r == translation_spec(x, y, z),
{
    Matrix4 {
        m00: FX_ONE, m01: 0, m02: 0, m03: x,
        m10: 0, m11: FX_ONE, m12: 0, m13: y,
        m20: 0, m21: 0, m22: FX_ONE, m23: z,
        m30: 0, m31: 0, m32: 0, m33: FX_ONE,
    }
}

/// Build the rotation about the x axis from a fixed-point cosine and
/// sine pair.
pub fn rotation_x(c: i64, s: i64) -> (r: Matrix4)
    requires
        s > i64::MIN,
    ensures
        r == rotation_x_spec(c, s),
{
    Matrix4 {
        m00: FX_ONE, m01: 0, m02: 0, m03: 0,
        m10: 0, m11: c, m12: s, m13: 0,
        m20: 0, m21: -s, m22: c, m23: 0,
        m30: 0, m31: 0, m32: 0, m33: FX_ONE,
    }
}

/// Build the rotation about the y axis from a fixed-point cosine and
/// sine pair.
pub fn rotation_y(c: i64, s: i64) -> (r: Matrix4)
    requires
        s > i64::MIN,
    ensures
        r == rotation_y_spec(c, s),
{
    Matrix4 {
        m00: c, m01: 0, m02: -s, m03: 0,
        m10: 0, m11: FX_ONE, m12: 0, m13: 0,
        m20: s, m21: 0, m22: c, m23: 0,
        m30: 0, m31: 0, m32: 0, m33: FX_ONE,
    }
}

/// Build the rotation about the z axis from a fixed-point cosine and
/// sine pair.
pub fn rotation_z(c: i64, s: i64) -> (r: Matrix4)
    requires
        s > i64::MIN,
    ensures
        r == rotation_z_spec(c, s),
{
    Matrix4 {
        m00: c, m01: -s, m02: 0, m03: 0,
        m10: s, m11: c, m12: 0, m13: 0,
        m20: 0, m21: 0, m22: FX_ONE, m23: 0,
        m30: 0, m31: 0, m32: 0, m33: FX_ONE,
    }
}

/// The component-wise difference of two 3D vectors, as a value.
pub open spec fn sub3_spec(a: Vector3, b: Vector3) -> Vector3 {
    Vector3 { x: (a.x - b.x) as i64, y: (a.y - b.y) as i64, z: (a.z - b.z) as i64 }
}

/// The fixed-point cross product of two 3D vectors, as a value.
pub open spec fn cross_spec(a: Vector3, b: Vector3) -> Vector3 {
    Vector3 {
        x: cross3_x_spec(a, b) as i64,
        y: cross3_y_spec(a, b) as i64,
        z: cross3_z_spec(a, b) as i64,
    }
}

/// The fixed-point normalization of a 3D vector, as a value.
pub open spec fn normalize_spec(v: Vector3) -> Vector3 {
    Vector3 {
        x: normalize_comp_spec(v.x as int, len_sq_spec(v)) as i64,
        y: normalize_comp_spec(v.y as int, len_sq_spec(v)) as i64,
        z: normalize_comp_spec(v.z as int, len_sq_spec(v)) as i64,
    }
}

/// The camera-space z axis: the unit line of sight from the eye to the
/// target.
pub open spec fn view_z_spec(eye: Vector3, lookat: Vector3) -> Vector3 {
    normalize_spec(sub3_spec(lookat, eye))
}

/// The camera-space x axis: perpendicular to the up direction and the
/// line of sight.
pub open spec fn view_x_spec(eye: Vector3, lookat: Vector3, up: Vector3) -> Vector3 {
    normalize_spec(cross_spec(up, view_z_spec(eye, lookat)))
}

/// The camera-space y axis: perpendicular to the other two.
pub open spec fn view_y_spec(eye: Vector3, lookat: Vector3, up: Vector3) -> Vector3 {
    normalize_spec(cross_spec(view_z_spec(eye, lookat), view_x_spec(eye, lookat, up)))
}

/// The orientation part of a view matrix: the camera basis placed
/// row-wise, which inverts the camera-to-world orientation.
pub open spec fn view_basis_spec(xaxis: Vector3, yaxis: Vector3, zaxis: Vector3) -> Matrix4 {
    Matrix4 {
        m00: xaxis.x, m01: xaxis.y, m02: xaxis.z, m03: 0,
        m10: yaxis.x, m11: yaxis.y, m12: yaxis.z, m13: 0,
        m20: zaxis.x, m21: zaxis.y, m22: zaxis.z, m23: 0,
        m30: 0, m31: 0, m32: 0, m33: FX_ONE,
    }
}

/// A whole view matrix: the row-wise basis times the translation to
/// the negated eye position.
pub open spec fn view_from_spec(xaxis: Vector3, yaxis: Vector3, zaxis: Vector3, eye: Vector3) -> Matrix4 {
    mat4_mul_spec(
        view_basis_spec(xaxis, yaxis, zaxis),
        translation_spec(
            (-(eye.x as int)) as i64,
            (-(eye.y as int)) as i64,
            (-(eye.z as int)) as i64,
        ),
    )
}

/// The view matrix of a camera at `eye` looking at `lookat` with the
/// given up direction.
pub open spec fn view_matrix_spec(eye: Vector3, lookat: Vector3, up: Vector3) -> Matrix4 {
    view_from_spec(
        view_x_spec(eye, lookat, up),
        view_y_spec(eye, lookat, up),
        view_z_spec(eye, lookat),
        eye,
    )
}

/// Build the look-at view matrix.
///
/// Rotate so that the line of sight from the eye position to the target
/// maps to the z axis and the camera up direction maps to the y axis;
/// then translate by the negated eye position, so that the world moves
/// in the opposite direction around the fixed camera.
pub fn build_view_matrix(eye: Vector3, lookat: Vector3, up: Vector3) -> (r: Matrix4)
    requires
        vec3_bounded(eye, 0x1000000),
        vec3_bounded(lookat, 0x1000000),
        vec3_bounded(up, 0x1000000),
        1 <= len_sq_spec(sub3_spec(lookat, eye)),
        1 <= len_sq_spec(cross_spec(up, view_z_spec(eye, lookat))),
        1 <= len_sq_spec(cross_spec(view_z_spec(eye, lookat), view_x_spec(eye, lookat, up))),
    ensures
        r == view_matrix_spec(eye, lookat, up),
        mat4_bounded(r, 0x2000000000000000),
{
    let z = lookat.sub(eye).normalize();
    proof {
        assert(z == view_z_spec(eye, lookat));
    }
    let cx = up.cross(z);
    proof {
        assert(cx == cross_spec(up, z));
        lemma_mul_bound2m(up.y as int, z.z as int, 0x1000000, 0x10000);
        lemma_mul_bound2m(up.z as int, z.y as int, 0x1000000, 0x10000);
        lemma_mul_bound2m(up.z as int, z.x as int, 0x1000000, 0x10000);
        lemma_mul_bound2m(up.x as int, z.z as int, 0x1000000, 0x10000);
        lemma_mul_bound2m(up.x as int, z.y as int, 0x1000000, 0x10000);
        lemma_mul_bound2m(up.y as int, z.x as int, 0x1000000, 0x10000);
        lemma_tdiv_bound(up.y * z.z - up.z * z.y, FX_ONE as int, 0x2000000);
        lemma_tdiv_bound(up.z * z.x - up.x * z.z, FX_ONE as int, 0x2000000);
        lemma_tdiv_bound(up.x * z.y - up.y * z.x, FX_ONE as int, 0x2000000);
    }
    let x = cx.normalize();
    proof {
        assert(x == view_x_spec(eye, lookat, up));
    }
    let cy = z.cross(x);
    proof {
        assert(cy == cross_spec(z, x));
        lemma_mul_bound2m(z.y as int, x.z as int, 0x10000, 0x10000);
        lemma_mul_bound2m(z.z as int, x.y as int, 0x10000, 0x10000);
        lemma_mul_bound2m(z.z as int, x.x as int, 0x10000, 0x10000);
        lemma_mul_bound2m(z.x as int, x.z as int, 0x10000, 0x10000);
        lemma_mul_bound2m(z.x as int, x.y as int, 0x10000, 0x10000);
        lemma_mul_bound2m(z.y as int, x.x as int, 0x10000, 0x10000);
        lemma_tdiv_bound(z.y * x.z - z.z * x.y, FX_ONE as int, 0x20000);
        lemma_tdiv_bound(z.z * x.x - z.x * x.z, FX_ONE as int, 0x20000);
        lemma_tdiv_bound(z.x * x.y - z.y * x.x, FX_ONE as int, 0x20000);
    }
    let y = cy.normalize();
    proof {
        assert(y == view_y_spec(eye, lookat, up));
    }

    let rotation = Matrix4 {
        m00: x.x, m01: x.y, m02: x.z, m03: 0,
        m10: y.x, m11: y.y, m12: y.z, m13: 0,
        m20: z.x, m21: z.y, m22: z.z, m23: 0,
        m30: 0, m31: 0, m32: 0, m33: FX_ONE,
    };
    let xlat = translation(-eye.x, -eye.y, -eye.z);
    let r = rotation.mul(&xlat);
    proof {
        lemma_mat4_mul_bounded(rotation, xlat, 0x10000, 0x1000000, 0x2000000000000000);
    }
    r
}

/// The symmetric perspective projection matrix, from a near plane `n`,
/// far plane `f`, the tangent of half the vertical field of view, and
/// the aspect ratio, all in fixed point.
pub open spec fn perspective_spec(n: i64, f: i64, tan_half_fov: i64, aspect_ratio: i64) -> Matrix4 {
    let size = fx_mul_spec(n as int, tan_half_fov as int);
    let l = -size;
    let r = size;
    let t = fx_div_spec(size, aspect_ratio as int);
    let b = -t;
    Matrix4 {
        m00: fx_div_spec(2 * n, r - l) as i64,
        m01: 0,
        m02: fx_div_spec(r + l, r - l) as i64,
        m03: 0,
        m10: 0,
        m11: fx_div_spec(2 * n, t - b) as i64,
        m12: fx_div_spec(t + b, t - b) as i64,
        m13: 0,
        m20: 0,
        m21: 0,
        m22: (-fx_div_spec(f as int + n as int, f as int - n as int)) as i64,
        m23: (-fx_div_spec(2 * fx_mul_spec(f as int, n as int), f as int - n as int)) as i64,
        m30: 0,
        m31: 0,
        m32: (-(FX_ONE as int)) as i64,
        m33: 0,
    }
}

/// Build the perspective projection matrix: an OpenGL-style symmetric
/// frustum that maps view space to clip space with `w = -z_view`.
pub fn build_perspective_matrix(n: i64, f: i64, tan_half_fov: i64, aspect_ratio: i64) -> (r: Matrix4)
    requires
        1 <= n <= 0x1000000,
        n < f <= 0x1000000,
        1 <= tan_half_fov <= 0x1000000,
        1 <= aspect_ratio <= 0x10000000,
        1 <= fx_mul_spec(n as int, tan_half_fov as int),
        1 <= fx_div_spec(fx_mul_spec(n as int, tan_half_fov as int), aspect_ratio as int),
    ensures
        r == perspective_spec(n, f, tan_half_fov, aspect_ratio),
{
    proof {
        lemma_mul_bound2m(n as int, tan_half_fov as int, 0x1000000, 0x1000000);
        lemma_tdiv_bound(n as int * tan_half_fov as int, FX_ONE as int, 0x1000000000);
    }
    let size = fx_mul(n, tan_half_fov);
    let l = -size;
    let rr = size;
    proof {
        lemma_ge_one_mul(i64::MAX as int, aspect_ratio as int);
        lemma_sdiv_le(size as int * FX_ONE as int, aspect_ratio as int);
    }
    let t = fx_div(size, aspect_ratio);
    let b = -t;
    proof {
        lemma_ge_one_mul(i64::MAX as int, rr as int - l as int);
        lemma_sdiv_le(2 * n as int * FX_ONE as int, rr as int - l as int);
        lemma_sdiv_le((rr as int + l as int) * FX_ONE as int, rr as int - l as int);
        lemma_ge_one_mul(i64::MAX as int, t as int - b as int);
        lemma_sdiv_le(2 * n as int * FX_ONE as int, t as int - b as int);
        lemma_sdiv_le((t as int + b as int) * FX_ONE as int, t as int - b as int);
        lemma_ge_one_mul(i64::MAX as int, f as int - n as int);
        lemma_sdiv_le((f as int + n as int) * FX_ONE as int, f as int - n as int);
    }
    let e00 = fx_div(2 * n, rr - l);
    let e02 = fx_div(rr + l, rr - l);
    let e11 = fx_div(2 * n, t - b);
    let e12 = fx_div(t + b, t - b);
    let e22 = -fx_div(f + n, f - n);
    proof {
        lemma_mul_bound2m(f as int, n as int, 0x1000000, 0x1000000);
        lemma_tdiv_bound(f as int * n as int, FX_ONE as int, 0x1000000000000);
    }
    let fm = fx_mul(f, n);
    proof {
        lemma_sdiv_le(2 * fm as int * FX_ONE as int, f as int - n as int);
    }
    let e23 = -fx_div(2 * fm, f - n);

    Matrix4 {
        m00: e00, m01: 0, m02: e02, m03: 0,
        m10: 0, m11: e11, m12: e12, m13: 0,
        m20: 0, m21: 0, m22: e22, m23: e23,
        m30: 0, m31: 0, m32: -FX_ONE, m33: 0,
    }
}

/// The two depth entries of the projection matrix cancel on the view
/// axis: at view depth `-n` the clip z is `-n`, at `-f` it is `f`.
#[verifier::rlimit(60)]
proof fn lemma_depth_cancel(av: int, bv: int, fm: int, s: int, ni: int, fi: int, d: int)
    by (nonlinear_arith)
    requires
        av * d == (fi + ni) * s,
        bv * d == 2 * fm * s,
        fm * s == fi * ni,
        d == fi - ni,
        d >= 1,
    ensures
        av * ni - bv * s == -(ni * s),
        av * fi - bv * s == fi * s,
{
}

/// An exact division: when the divisor divides the dividend, truncating
/// division recovers the true quotient, with no remainder.
proof fn lemma_tdiv_exact(a: int, d: int)
    requires
        d > 0,
        a % d == 0,
    ensures
        a == d * tdiv(a, d),
{
    vstd::arithmetic::div_mod::lemma_fundamental_div_mod(a, d);
    if a >= 0 {
    } else {
        let q = a / d;
        assert(a == d * q);
        assert(-a == d * (-q)) by (nonlinear_arith)
            requires
                a == d * q,
        ;
        vstd::arithmetic::div_mod::lemma_div_multiples_vanish(-q, d);
        assert((-a) / d == -q);
        assert(tdiv(a, d) == q);
    }
}

/// View / projection round trip. A camera point on the view axis at the
/// near-plane distance lands, after projection and perspective divide,
/// on normalized device coordinates (0, 0, -1); one at the far-plane
/// distance lands on (0, 0, +1) — exactly, whenever the fixed-point
/// divisions inside the projection matrix are exact.
pub proof fn lemma_projection_round_trip(n: i64, f: i64, tan_half_fov: i64, aspect_ratio: i64)
    requires
        1 <= n <= 0x1000000,
        n < f <= 0x1000000,
        1 <= tan_half_fov <= 0x1000000,
        1 <= aspect_ratio <= 0x1000000,
        1 <= fx_mul_spec(n as int, tan_half_fov as int),
        1 <= fx_div_spec(fx_mul_spec(n as int, tan_half_fov as int), aspect_ratio as int),
        (f as int * n as int) % (FX_ONE as int) == 0,
        ((f as int + n as int) * FX_ONE as int) % (f as int - n as int) == 0,
        (2 * fx_mul_spec(f as int, n as int) * FX_ONE) % (f as int - n as int) == 0,
    ensures
        ({
            let p = perspective_spec(n, f, tan_half_fov, aspect_ratio);
            let near = mat4_vec_spec(p, Vector4 { x: 0, y: 0, z: (-(n as int)) as i64, w: FX_ONE });
            let far = mat4_vec_spec(p, Vector4 { x: 0, y: 0, z: (-(f as int)) as i64, w: FX_ONE });
            &&& near.x == 0
            &&& near.y == 0
            &&& near.w == n
            &&& sdiv(near.z as int * FX_ONE, near.w as int) == -FX_ONE
            &&& far.x == 0
            &&& far.y == 0
            &&& far.w == f
            &&& sdiv(far.z as int * FX_ONE, far.w as int) == FX_ONE
        }),
{
    let p = perspective_spec(n, f, tan_half_fov, aspect_ratio);
    let s = FX_ONE as int;
    let ni = n as int;
    let fi = f as int;
    let d = fi - ni;
    let near_v = Vector4 { x: 0, y: 0, z: (-(n as int)) as i64, w: FX_ONE };
    let far_v = Vector4 { x: 0, y: 0, z: (-(f as int)) as i64, w: FX_ONE };
    let near = mat4_vec_spec(p, near_v);
    let far = mat4_vec_spec(p, far_v);
    assert(near_v.z as int == -ni);
    assert(far_v.z as int == -fi);

    // The off-axis entries vanish: the frustum is symmetric, so r + l
    // and t + b are exactly zero.
    let size = fx_mul_spec(ni, tan_half_fov as int);
    let tt = fx_div_spec(size, aspect_ratio as int);
    vstd::arithmetic::div_mod::lemma_div_of0(size + size);
    vstd::arithmetic::div_mod::lemma_div_of0(tt + tt);
    assert(p.m02 as int == 0);
    assert(p.m12 as int == 0);

    // The two depth entries are exact quotients: av stands for
    // (f + n) / (f - n) and bv for 2 f n / (f - n), both at scale s.
    let av = tdiv((fi + ni) * s, d);
    lemma_tdiv_exact((fi + ni) * s, d);
    lemma_sdiv_le((fi + ni) * s, d);
    assert(p.m22 as int == -av);
    let fm = fx_mul_spec(fi, ni);
    lemma_tdiv_exact(fi * ni, s);
    vstd::arithmetic::div_mod::lemma_div_pos_is_pos(fi * ni, s);
    assert(fi * ni >= 0) by (nonlinear_arith)
        requires
            fi >= 0,
            ni >= 0,
    ;
    assert(fm * s == fi * ni) by {
        assert(fi * ni == s * fm);
        assert(s * fm == fm * s) by (nonlinear_arith);
    }
    lemma_mul_bound2m(fi, ni, 0x1000000, 0x1000000);
    lemma_tdiv_bound(fi * ni, s, 0x100000000);
    let bv = tdiv(2 * fm * s, d);
    lemma_tdiv_exact(2 * fm * s, d);
    lemma_sdiv_le(2 * fm * s, d);
    assert(p.m23 as int == -bv);

    // Rows x and y are zero on the view axis.
    vstd::arithmetic::div_mod::lemma_div_of0(s);
    assert(p.m00 as int * (near_v.x as int) + p.m01 as int * (near_v.y as int) + p.m02 as int
        * (near_v.z as int) + p.m03 as int * (near_v.w as int) == 0) by (nonlinear_arith)
        requires
            near_v.x as int == 0,
            near_v.y as int == 0,
            p.m02 as int == 0,
            p.m03 as int == 0,
    ;
    assert(p.m10 as int * (near_v.x as int) + p.m11 as int * (near_v.y as int) + p.m12 as int
        * (near_v.z as int) + p.m13 as int * (near_v.w as int) == 0) by (nonlinear_arith)
        requires
            near_v.x as int == 0,
            near_v.y as int == 0,
            p.m12 as int == 0,
            p.m13 as int == 0,
    ;
    assert(p.m00 as int * (far_v.x as int) + p.m01 as int * (far_v.y as int) + p.m02 as int
        * (far_v.z as int) + p.m03 as int * (far_v.w as int) == 0) by (nonlinear_arith)
        requires
            far_v.x as int == 0,
            far_v.y as int == 0,
            p.m02 as int == 0,
            p.m03 as int == 0,
    ;
    assert(p.m10 as int * (far_v.x as int) + p.m11 as int * (far_v.y as int) + p.m12 as int
        * (far_v.z as int) + p.m13 as int * (far_v.w as int) == 0) by (nonlinear_arith)
        requires
            far_v.x as int == 0,
            far_v.y as int == 0,
            p.m12 as int == 0,
            p.m13 as int == 0,
    ;
    assert(near.x == 0 && near.y == 0 && far.x == 0 && far.y == 0);

    // Row w: w_clip is the negated view-space z.
    assert(p.m30 as int * (near_v.x as int) + p.m31 as int * (near_v.y as int) + p.m32 as int
        * (near_v.z as int) + p.m33 as int * (near_v.w as int) == s * ni) by (nonlinear_arith)
        requires
            near_v.x as int == 0,
            near_v.y as int == 0,
            near_v.z as int == -ni,
            p.m30 as int == 0,
            p.m31 as int == 0,
            p.m32 as int == -s,
            p.m33 as int == 0,
    ;
    assert(p.m30 as int * (far_v.x as int) + p.m31 as int * (far_v.y as int) + p.m32 as int
        * (far_v.z as int) + p.m33 as int * (far_v.w as int) == s * fi) by (nonlinear_arith)
        requires
            far_v.x as int == 0,
            far_v.y as int == 0,
            far_v.z as int == -fi,
            p.m30 as int == 0,
            p.m31 as int == 0,
            p.m32 as int == -s,
            p.m33 as int == 0,
    ;
    lemma_tdiv_multiple(ni, s);
    lemma_tdiv_multiple(fi, s);
    assert(near.w == n);
    assert(far.w == f);

    // Row z: the depth entries cancel exactly to -n at the near plane
    // and to +f at the far plane.
    lemma_depth_cancel(av, bv, fm, s, ni, fi, d);
    assert(p.m20 as int * (near_v.x as int) + p.m21 as int * (near_v.y as int) + p.m22 as int
        * (near_v.z as int) + p.m23 as int * (near_v.w as int) == s * (-ni)) by (nonlinear_arith)
        requires
            near_v.x as int == 0,
            near_v.y as int == 0,
            near_v.z as int == -ni,
            near_v.w as int == s,
            p.m20 as int == 0,
            p.m21 as int == 0,
            p.m22 as int == -av,
            p.m23 as int == -bv,
            av * ni - bv * s == -(ni * s),
    ;
    assert(p.m20 as int * (far_v.x as int) + p.m21 as int * (far_v.y as int) + p.m22 as int
        * (far_v.z as int) + p.m23 as int * (far_v.w as int) == s * fi) by (nonlinear_arith)
        requires
            far_v.x as int == 0,
            far_v.y as int == 0,
            far_v.z as int == -fi,
            far_v.w as int == s,
            p.m20 as int == 0,
            p.m21 as int == 0,
            p.m22 as int == -av,
            p.m23 as int == -bv,
            av * fi - bv * s == fi * s,
    ;
    lemma_tdiv_multiple(-ni, s);
    assert(near.z as int == -ni);
    assert(far.z as int == fi);

    // Perspective divide: z / w on the axis is exactly -1 and +1.
    assert((near.z as int) * s == ni * (-s)) by (nonlinear_arith)
        requires
            near.z as int == -ni,
    ;
    lemma_tdiv_multiple(-s, ni);
    assert(sdiv(near.z as int * s, near.w as int) == -s);
    assert((far.z as int) * s == fi * s) by (nonlinear_arith)
        requires
            far.z as int == fi,
    ;
    lemma_tdiv_multiple(s, fi);
    assert(sdiv(far.z as int * s, far.w as int) == s);
}

/// Multiplying by zero gives zero.
proof fn lemma_zero_mul(x: int)
    by (nonlinear_arith)
    ensures
        0 * x == 0,
        x * 0 == 0,
{
}

/// The first three entries of a view-matrix row are the basis row
/// itself: the translation's identity block passes them through.
proof fn lemma_view_row_entries(a: i64, b: i64, c: i64)
    requires
        -0x10000 <= a <= 0x10000,
        -0x10000 <= b <= 0x10000,
        -0x10000 <= c <= 0x10000,
    ensures
        dot4_spec(a, b, c, 0, FX_ONE, 0, 0, 0) == a as int,
        dot4_spec(a, b, c, 0, 0, FX_ONE, 0, 0) == b as int,
        dot4_spec(a, b, c, 0, 0, 0, FX_ONE, 0) == c as int,
{
    assert(a * FX_ONE + b * 0 + c * 0 + 0 * 0 == (FX_ONE as int) * (a as int))
        by (nonlinear_arith);
    assert(a * 0 + b * FX_ONE + c * 0 + 0 * 0 == (FX_ONE as int) * (b as int))
        by (nonlinear_arith);
    assert(a * 0 + b * 0 + c * FX_ONE + 0 * 0 == (FX_ONE as int) * (c as int))
        by (nonlinear_arith);
    lemma_tdiv_multiple(a as int, FX_ONE as int);
    lemma_tdiv_multiple(b as int, FX_ONE as int);
    lemma_tdiv_multiple(c as int, FX_ONE as int);
}

/// One row of the view/translation duality: with the camera and the
/// shift on the whole-unit lattice, applying a view row built for `eye`
/// to a shifted vertex equals applying the row built for `eye - t` to
/// the unshifted vertex — the two dividends agree exactly.
proof fn lemma_view_row_duality(
    a: i64, b: i64, c: i64,
    nx: i64, ny: i64, nz: i64,
    nx2: i64, ny2: i64, nz2: i64,
    tx: i64, ty: i64, tz: i64,
    ux: i64, uy: i64, uz: i64,
    sx_: i64, sy_: i64, sz_: i64,
)
    requires
        -0x10000 <= a <= 0x10000,
        -0x10000 <= b <= 0x10000,
        -0x10000 <= c <= 0x10000,
        -0x1000000 <= nx <= 0x1000000,
        -0x1000000 <= ny <= 0x1000000,
        -0x1000000 <= nz <= 0x1000000,
        -0x2000000 <= nx2 <= 0x2000000,
        -0x2000000 <= ny2 <= 0x2000000,
        -0x2000000 <= nz2 <= 0x2000000,
        -0x1000000 <= tx <= 0x1000000,
        -0x1000000 <= ty <= 0x1000000,
        -0x1000000 <= tz <= 0x1000000,
        (nx as int) % (FX_ONE as int) == 0,
        (ny as int) % (FX_ONE as int) == 0,
        (nz as int) % (FX_ONE as int) == 0,
        (tx as int) % (FX_ONE as int) == 0,
        (ty as int) % (FX_ONE as int) == 0,
        (tz as int) % (FX_ONE as int) == 0,
        nx2 as int == nx + tx,
        ny2 as int == ny + ty,
        nz2 as int == nz + tz,
        sx_ as int == ux + tx,
        sy_ as int == uy + ty,
        sz_ as int == uz + tz,
    ensures
        ({
            let si = FX_ONE as int;
            let v3l = dot4_spec(a, b, c, 0, nx, ny, nz, FX_ONE);
            let v3r = dot4_spec(a, b, c, 0, nx2, ny2, nz2, FX_ONE);
            tdiv(a * sx_ + b * sy_ + c * sz_ + ((v3l as i64) as int) * (FX_ONE as int), si)
                == tdiv(a * ux + b * uy + c * uz + ((v3r as i64) as int) * (FX_ONE as int), si)
        }),
{
    let si = FX_ONE as int;
    let v3l = dot4_spec(a, b, c, 0, nx, ny, nz, FX_ONE);
    let v3r = dot4_spec(a, b, c, 0, nx2, ny2, nz2, FX_ONE);
    lemma_zero_mul(FX_ONE as int);

    let kx = (nx as int) / si;
    let ky = (ny as int) / si;
    let kz = (nz as int) / si;
    let px = (tx as int) / si;
    let py = (ty as int) / si;
    let pz = (tz as int) / si;
    vstd::arithmetic::div_mod::lemma_fundamental_div_mod(nx as int, si);
    vstd::arithmetic::div_mod::lemma_fundamental_div_mod(ny as int, si);
    vstd::arithmetic::div_mod::lemma_fundamental_div_mod(nz as int, si);
    vstd::arithmetic::div_mod::lemma_fundamental_div_mod(tx as int, si);
    vstd::arithmetic::div_mod::lemma_fundamental_div_mod(ty as int, si);
    vstd::arithmetic::div_mod::lemma_fundamental_div_mod(tz as int, si);
    assert(nx as int == si * kx && ny as int == si * ky && nz as int == si * kz);
    assert(tx as int == si * px && ty as int == si * py && tz as int == si * pz);

    assert(a * nx == si * (a * kx)) by (nonlinear_arith)
        requires
            nx as int == si * kx,
    ;
    assert(b * ny == si * (b * ky)) by (nonlinear_arith)
        requires
            ny as int == si * ky,
    ;
    assert(c * nz == si * (c * kz)) by (nonlinear_arith)
        requires
            nz as int == si * kz,
    ;
    assert(a * nx + b * ny + c * nz + 0 * (FX_ONE as int) == si * (a * kx + b * ky + c * kz));
    lemma_tdiv_multiple(a * kx + b * ky + c * kz, si);
    assert(v3l == a * kx + b * ky + c * kz);

    assert(nx2 as int == si * (kx + px) && ny2 as int == si * (ky + py) && nz2 as int == si * (kz
        + pz)) by (nonlinear_arith)
        requires
            nx2 as int == nx + tx,
            ny2 as int == ny + ty,
            nz2 as int == nz + tz,
            nx as int == si * kx,
            ny as int == si * ky,
            nz as int == si * kz,
            tx as int == si * px,
            ty as int == si * py,
            tz as int == si * pz,
    ;
    assert(a * nx2 == si * (a * (kx + px))) by (nonlinear_arith)
        requires
            nx2 as int == si * (kx + px),
    ;
    assert(b * ny2 == si * (b * (ky + py))) by (nonlinear_arith)
        requires
            ny2 as int == si * (ky + py),
    ;
    assert(c * nz2 == si * (c * (kz + pz))) by (nonlinear_arith)
        requires
            nz2 as int == si * (kz + pz),
    ;
    assert(a * nx2 + b * ny2 + c * nz2 + 0 * (FX_ONE as int) == si * (a * (kx + px) + b * (ky
        + py) + c * (kz + pz)));
    lemma_tdiv_multiple(a * (kx + px) + b * (ky + py) + c * (kz + pz), si);
    assert(v3r == a * (kx + px) + b * (ky + py) + c * (kz + pz));

    // Both row values are the same integer before the final division.
    assert(a * sx_ == a * ux + (FX_ONE as int) * (a * px)) by (nonlinear_arith)
        requires
            sx_ as int == ux + tx,
            tx as int == (FX_ONE as int) * px,
    ;
    assert(b * sy_ == b * uy + (FX_ONE as int) * (b * py)) by (nonlinear_arith)
        requires
            sy_ as int == uy + ty,
            ty as int == (FX_ONE as int) * py,
    ;
    assert(c * sz_ == c * uz + (FX_ONE as int) * (c * pz)) by (nonlinear_arith)
        requires
            sz_ as int == uz + tz,
            tz as int == (FX_ONE as int) * pz,
    ;
    assert(-0x4000000 <= v3l <= 0x4000000) by {
        lemma_mul_bound2m(a as int, nx as int, 0x10000, 0x1000000);
        lemma_mul_bound2m(b as int, ny as int, 0x10000, 0x1000000);
        lemma_mul_bound2m(c as int, nz as int, 0x10000, 0x1000000);
        lemma_tdiv_bound(a * nx + b * ny + c * nz + 0 * (FX_ONE as int), si, 0x4000000);
    }
    assert(-0x8000000 <= v3r <= 0x8000000) by {
        lemma_mul_bound2m(a as int, nx2 as int, 0x10000, 0x2000000);
        lemma_mul_bound2m(b as int, ny2 as int, 0x10000, 0x2000000);
        lemma_mul_bound2m(c as int, nz2 as int, 0x10000, 0x2000000);
        lemma_tdiv_bound(a * nx2 + b * ny2 + c * nz2 + 0 * (FX_ONE as int), si, 0x8000000);
    }
    assert(((v3l as i64) as int) == v3l);
    assert(((v3r as i64) as int) == v3r);
    assert(a * (kx + px) == a * kx + a * px) by (nonlinear_arith);
    assert(b * (ky + py) == b * ky + b * py) by (nonlinear_arith);
    assert(c * (kz + pz) == c * kz + c * pz) by (nonlinear_arith);
    assert(v3r == v3l + (a * px + b * py + c * pz));
    assert(v3r * (FX_ONE as int) == v3l * (FX_ONE as int) + (FX_ONE as int) * (a * px) + (
    FX_ONE as int) * (b * py) + (FX_ONE as int) * (c * pz)) by (nonlinear_arith)
        requires
            v3r == v3l + (a * px + b * py + c * pz),
    ;
    assert(a * sx_ == a * ux + (FX_ONE as int) * (a * px) && b * sy_ == b * uy + (
    FX_ONE as int) * (b * py) && c * sz_ == c * uz + (FX_ONE as int) * (c * pz));
    assert(a * sx_ + b * sy_ + c * sz_ + ((v3l as i64) as int) * (FX_ONE as int) == a * ux + b
        * uy + c * uz + ((v3r as i64) as int) * (FX_ONE as int));
}

/// Mesh-translation / camera-translation duality. With the camera
/// position and the shift on the whole-unit lattice, shifting a
/// world-space vertex by `t` and viewing it from `eye` gives exactly
/// the same view-space vertex as leaving the vertex in place and
/// moving the camera eye by `-t`. Rendering a translated mesh and
/// rendering the untranslated mesh with the oppositely shifted camera
/// therefore run the rest of the pipeline on identical vertices.
pub proof fn lemma_view_translation_duality(
    xaxis: Vector3,
    yaxis: Vector3,
    zaxis: Vector3,
    eye: Vector3,
    t: Vector3,
    u: Vector4,
)
    requires
        vec3_bounded(xaxis, 0x10000),
        vec3_bounded(yaxis, 0x10000),
        vec3_bounded(zaxis, 0x10000),
        vec3_bounded(eye, 0x1000000),
        vec3_bounded(t, 0x1000000),
        vec4_bounded(u, 0x10000000000),
        u.w == FX_ONE,
        (eye.x as int) % (FX_ONE as int) == 0,
        (eye.y as int) % (FX_ONE as int) == 0,
        (eye.z as int) % (FX_ONE as int) == 0,
        (t.x as int) % (FX_ONE as int) == 0,
        (t.y as int) % (FX_ONE as int) == 0,
        (t.z as int) % (FX_ONE as int) == 0,
    ensures
        mat4_vec_spec(
            view_from_spec(xaxis, yaxis, zaxis, eye),
            Vector4 {
                x: (u.x + t.x) as i64,
                y: (u.y + t.y) as i64,
                z: (u.z + t.z) as i64,
                w: u.w,
            },
        ) == mat4_vec_spec(
            view_from_spec(
                xaxis,
                yaxis,
                zaxis,
                Vector3 { x: (eye.x - t.x) as i64, y: (eye.y - t.y) as i64, z: (eye.z - t.z) as i64 },
            ),
            u,
        ),
{
    let si = FX_ONE as int;
    let eye2 = Vector3 { x: (eye.x - t.x) as i64, y: (eye.y - t.y) as i64, z: (eye.z - t.z) as i64 };
    let shifted = Vector4 { x: (u.x + t.x) as i64, y: (u.y + t.y) as i64, z: (u.z + t.z) as i64, w: u.w };
    let vl = view_from_spec(xaxis, yaxis, zaxis, eye);
    let vr = view_from_spec(xaxis, yaxis, zaxis, eye2);
    let nx: i64 = (-(eye.x as int)) as i64;
    let ny: i64 = (-(eye.y as int)) as i64;
    let nz: i64 = (-(eye.z as int)) as i64;
    let nx2: i64 = (-(eye2.x as int)) as i64;
    let ny2: i64 = (-(eye2.y as int)) as i64;
    let nz2: i64 = (-(eye2.z as int)) as i64;
    assert(nx2 as int == nx + t.x);
    assert(ny2 as int == ny + t.y);
    assert(nz2 as int == nz + t.z);
    assert((nx as int) % si == 0 && (ny as int) % si == 0 && (nz as int) % si == 0) by {
        vstd::arithmetic::div_mod::lemma_mod_multiples_basic(-((eye.x as int) / si), si);
        vstd::arithmetic::div_mod::lemma_mod_multiples_basic(-((eye.y as int) / si), si);
        vstd::arithmetic::div_mod::lemma_mod_multiples_basic(-((eye.z as int) / si), si);
        vstd::arithmetic::div_mod::lemma_fundamental_div_mod(eye.x as int, si);
        vstd::arithmetic::div_mod::lemma_fundamental_div_mod(eye.y as int, si);
        vstd::arithmetic::div_mod::lemma_fundamental_div_mod(eye.z as int, si);
        assert(nx as int == si * (-((eye.x as int) / si))) by (nonlinear_arith)
            requires
                eye.x as int == si * ((eye.x as int) / si),
                nx as int == -(eye.x as int),
        ;
        assert(ny as int == si * (-((eye.y as int) / si))) by (nonlinear_arith)
            requires
                eye.y as int == si * ((eye.y as int) / si),
                ny as int == -(eye.y as int),
        ;
        assert(nz as int == si * (-((eye.z as int) / si))) by (nonlinear_arith)
            requires
                eye.z as int == si * ((eye.z as int) / si),
                nz as int == -(eye.z as int),
        ;
    }

    lemma_view_row_entries(xaxis.x, xaxis.y, xaxis.z);
    lemma_view_row_entries(yaxis.x, yaxis.y, yaxis.z);
    lemma_view_row_entries(zaxis.x, zaxis.y, zaxis.z);
    lemma_view_row_duality(
        xaxis.x, xaxis.y, xaxis.z,
        nx, ny, nz, nx2, ny2, nz2,
        t.x, t.y, t.z, u.x, u.y, u.z,
        shifted.x, shifted.y, shifted.z,
    );
    lemma_view_row_duality(
        yaxis.x, yaxis.y, yaxis.z,
        nx, ny, nz, nx2, ny2, nz2,
        t.x, t.y, t.z, u.x, u.y, u.z,
        shifted.x, shifted.y, shifted.z,
    );
    lemma_view_row_duality(
        zaxis.x, zaxis.y, zaxis.z,
        nx, ny, nz, nx2, ny2, nz2,
        t.x, t.y, t.z, u.x, u.y, u.z,
        shifted.x, shifted.y, shifted.z,
    );

    // The bottom row is (0, 0, 0, one) in both matrices, so both w
    // components equal the vertex's own w.
    lemma_zero_mul(FX_ONE as int);
    lemma_zero_mul(nx as int);
    lemma_zero_mul(ny as int);
    lemma_zero_mul(nz as int);
    lemma_zero_mul(nx2 as int);
    lemma_zero_mul(ny2 as int);
    lemma_zero_mul(nz2 as int);
    lemma_zero_mul(shifted.x as int);
    lemma_zero_mul(shifted.y as int);
    lemma_zero_mul(shifted.z as int);
    lemma_zero_mul(u.x as int);
    lemma_zero_mul(u.y as int);
    lemma_zero_mul(u.z as int);
    vstd::arithmetic::div_mod::lemma_div_of0(si);
    lemma_tdiv_multiple(FX_ONE as int, FX_ONE as int);
    assert(mat4_vec_spec(vl, shifted).w == mat4_vec_spec(vr, u).w);
    assert(mat4_vec_spec(vl, shifted).x == mat4_vec_spec(vr, u).x);
    assert(mat4_vec_spec(vl, shifted).y == mat4_vec_spec(vr, u).y);
    assert(mat4_vec_spec(vl, shifted).z == mat4_vec_spec(vr, u).z);
}

} // verus!
