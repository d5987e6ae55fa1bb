//! Small vector types and a general column-major matrix, all in
//! fixed-point arithmetic (see the `fx` module).

use vstd::prelude::*;
use crate::fx::{tdiv, sqrt_floor, fx_mul_spec, FX_ONE, tdiv128, fx_mul, isqrt64};
use crate::fx::lemma_tdiv_bound;

verus! {

/// A 2D vector; for raster-space work the components are plain pixel
/// counts, elsewhere they are fixed-point.
#[derive(Copy, Clone)]
pub struct Vector2 {
    pub x: i64,
    pub y: i64,
}

/// A 3D vector in fixed-point.
#[derive(Copy, Clone)]
pub struct Vector3 {
    pub x: i64,
    pub y: i64,
    pub z: i64,
}

impl Vector2 {
    /// Component-wise difference.
    pub fn sub(self, other: Vector2) -> (r: Vector2)
        requires
            i64::MIN <= self.x - other.x <= i64::MAX,
            i64::MIN <= self.y - other.y <= i64::MAX,
        ensures
            r.x == self.x - other.x,
            r.y == self.y - other.y,
    {
        Vector2 { x: self.x - other.x, y: self.y - other.y }
    }
}

/// The fixed-point dot product of two 3D vectors.
pub open spec fn dot3_spec(a: Vector3, b: Vector3) -> int {
    tdiv(a.x * b.x + a.y * b.y + a.z * b.z, FX_ONE as int)
}

/// The fixed-point cross product of two 3D vectors, component-wise.
pub open spec fn cross3_x_spec(a: Vector3, b: Vector3) -> int {
    tdiv(a.y * b.z - a.z * b.y, FX_ONE as int)
}

pub open spec fn cross3_y_spec(a: Vector3, b: Vector3) -> int {
    tdiv(a.z * b.x - a.x * b.z, FX_ONE as int)
}

pub open spec fn cross3_z_spec(a: Vector3, b: Vector3) -> int {
    tdiv(a.x * b.y - a.y * b.x, FX_ONE as int)
}

/// The squared length of a 3D vector, in raw (scale-squared) units.
pub open spec fn len_sq_spec(v: Vector3) -> int {
    v.x * v.x + v.y * v.y + v.z * v.z
}

/// One component of the normalized vector: `c / |v|` in fixed point,
/// where the raw length is the square-root floor of the raw squared
/// length.
pub open spec fn normalize_comp_spec(c: int, len_sq: int) -> int {
    tdiv(c * FX_ONE, sqrt_floor(len_sq))
}

/// Every component of `v` lies in `[-b, b]`.
pub open spec fn vec3_bounded(v: Vector3, b: int) -> bool {
    &&& -b <= v.x <= b
    &&& -b <= v.y <= b
    &&& -b <= v.z <= b
}

impl Vector3 {
    /// Component-wise difference.
    pub fn sub(self, other: Vector3) -> (r: Vector3)
        requires
            i64::MIN <= self.x - other.x <= i64::MAX,
            i64::MIN <= self.y - other.y <= i64::MAX,
            i64::MIN <= self.z - other.z <= i64::MAX,
        ensures
            r.x == self.x - other.x,
            r.y == self.y - other.y,
            r.z == self.z - other.z,
    {
        Vector3 { x: self.x - other.x, y: self.y - other.y, z: self.z - other.z }
    }

    /// Fixed-point dot product.
    pub fn dot(self, other: Vector3) -> (r: i64)
        requires
            vec3_bounded(self, 0x8000_0000),
            vec3_bounded(other, 0x8000_0000),
        ensures
            r == dot3_spec(self, other),
    {
        proof {
            assert(-0x4000_0000_0000_0000 <= self.x * other.x <= 0x4000_0000_0000_0000
                && -0x4000_0000_0000_0000 <= self.y * other.y <= 0x4000_0000_0000_0000
                && -0x4000_0000_0000_0000 <= self.z * other.z <= 0x4000_0000_0000_0000)
                by (nonlinear_arith)
                requires
                    vec3_bounded(self, 0x8000_0000),
                    vec3_bounded(other, 0x8000_0000),
            ;
            lemma_tdiv_bound(
                self.x * other.x + self.y * other.y + self.z * other.z,
                FX_ONE as int,
                i64::MAX as int,
            );
        }
        let p: i128 = (self.x as i128) * (other.x as i128) + (self.y as i128) * (other.y
            as i128) + (self.z as i128) * (other.z as i128);
        tdiv128(p, FX_ONE as i128) as i64
    }

    /// Fixed-point cross product.
    pub fn cross(self, other: Vector3) -> (r: Vector3)
        requires
            vec3_bounded(self, 0x8000_0000),
            vec3_bounded(other, 0x8000_0000),
        ensures
            r.x == cross3_x_spec(self, other),
            r.y == cross3_y_spec(self, other),
            r.z == cross3_z_spec(self, other),
    {
        proof {
            assert(-0x4000_0000_0000_0000 <= self.y * other.z <= 0x4000_0000_0000_0000
                && -0x4000_0000_0000_0000 <= self.z * other.y <= 0x4000_0000_0000_0000
                && -0x4000_0000_0000_0000 <= self.z * other.x <= 0x4000_0000_0000_0000
                && -0x4000_0000_0000_0000 <= self.x * other.z <= 0x4000_0000_0000_0000
                && -0x4000_0000_0000_0000 <= self.x * other.y <= 0x4000_0000_0000_0000
                && -0x4000_0000_0000_0000 <= self.y * other.x <= 0x4000_0000_0000_0000)
                by (nonlinear_arith)
                requires
                    vec3_bounded(self, 0x8000_0000),
                    vec3_bounded(other, 0x8000_0000),
            ;
            lemma_tdiv_bound(self.y * other.z - self.z * other.y, FX_ONE as int, i64::MAX as int);
            lemma_tdiv_bound(self.z * other.x - self.x * other.z, FX_ONE as int, i64::MAX as int);
            lemma_tdiv_bound(self.x * other.y - self.y * other.x, FX_ONE as int, i64::MAX as int);
        }
        let cx: i128 = (self.y as i128) * (other.z as i128) - (self.z as i128) * (other.y
            as i128);
        let cy: i128 = (self.z as i128) * (other.x as i128) - (self.x as i128) * (other.z
            as i128);
        let cz: i128 = (self.x as i128) * (other.y as i128) - (self.y as i128) * (other.x
            as i128);
        Vector3 {
            x: tdiv128(cx, FX_ONE as i128) as i64,
            y: tdiv128(cy, FX_ONE as i128) as i64,
            z: tdiv128(cz, FX_ONE as i128) as i64,
        }
    }

    /// Scale to unit length (in fixed point). Every component of the
    /// result lies in `[-FX_ONE, FX_ONE]`.
    pub fn normalize(self) -> (r: Vector3)
        requires
            vec3_bounded(self, 0x8000_0000),
            1 <= len_sq_spec(self),
        ensures
            r.x == normalize_comp_spec(self.x as int, len_sq_spec(self)),
            r.y == normalize_comp_spec(self.y as int, len_sq_spec(self)),
            r.z == normalize_comp_spec(self.z as int, len_sq_spec(self)),
            -FX_ONE <= r.x <= FX_ONE,
            -FX_ONE <= r.y <= FX_ONE,
            -FX_ONE <= r.z <= FX_ONE,
    {
        proof {
            assert(0 <= self.x * self.x <= 0x4000_0000_0000_0000
                && 0 <= self.y * self.y <= 0x4000_0000_0000_0000
                && 0 <= self.z * self.z <= 0x4000_0000_0000_0000) by (nonlinear_arith)
                requires
                    vec3_bounded(self, 0x8000_0000),
            ;
        }
        let sq: i128 = (self.x as i128) * (self.x as i128) + (self.y as i128) * (self.y
            as i128) + (self.z as i128) * (self.z as i128);
        let len: u64 = isqrt64(sq as u64);
        proof {
            let ls = len_sq_spec(self);
            let l = len as int;
            assert(l >= 1) by (nonlinear_arith)
                requires
                    0 <= l,
                    l * l <= ls,
                    ls < (l + 1) * (l + 1),
                    1 <= ls,
            ;
            assert(-l <= self.x <= l && -l <= self.y <= l && -l <= self.z <= l)
                by (nonlinear_arith)
                requires
                    0 <= l,
                    ls < (l + 1) * (l + 1),
                    ls == self.x * self.x + self.y * self.y + self.z * self.z,
            ;
            assert(-(l * FX_ONE) <= self.x * FX_ONE <= l * FX_ONE) by (nonlinear_arith)
                requires
                    -l <= self.x <= l,
                    FX_ONE == 65536,
            ;
            assert(-(l * FX_ONE) <= self.y * FX_ONE <= l * FX_ONE) by (nonlinear_arith)
                requires
                    -l <= self.y <= l,
                    FX_ONE == 65536,
            ;
            assert(-(l * FX_ONE) <= self.z * FX_ONE <= l * FX_ONE) by (nonlinear_arith)
                requires
                    -l <= self.z <= l,
                    FX_ONE == 65536,
            ;
            lemma_tdiv_bound(self.x * FX_ONE, l, FX_ONE as int);
            lemma_tdiv_bound(self.y * FX_ONE, l, FX_ONE as int);
            lemma_tdiv_bound(self.z * FX_ONE, l, FX_ONE as int);
        }
        Vector3 {
            x: tdiv128((self.x as i128) * (FX_ONE as i128), len as i128) as i64,
            y: tdiv128((self.y as i128) * (FX_ONE as i128), len as i128) as i64,
            z: tdiv128((self.z as i128) * (FX_ONE as i128), len as i128) as i64,
        }
    }
}

/// A general column-major matrix of fixed-point values.
#[derive(Clone)]
pub struct Matrix {
    pub cols: i32,
    pub rows: i32,
    pub data: Vec<i64>,
}

/// Distinct (column, row) pairs land on distinct, in-range
/// column-major indices.
proof fn lemma_colmajor_distinct(dim: int, c1: int, r1: int, c2: int, r2: int)
    by (nonlinear_arith)
    requires
        0 <= c1 < dim,
        0 <= r1 < dim,
        0 <= c2 < dim,
        0 <= r2 < dim,
        c1 != c2 || r1 != r2,
    ensures
        c1 * dim + r1 != c2 * dim + r2,
        0 <= c1 * dim + r1 < dim * dim,
        0 <= c2 * dim + r2 < dim * dim,
{
}

impl Matrix {
    /// The element in column `c`, row `r` of the column-major storage.
    pub open spec fn ent(&self, c: int, r: int) -> i64 {
        self.data@[c * (self.rows as int) + r]
    }

    pub open spec fn spec_cols(&self) -> int {
        self.cols as int
    }

    pub open spec fn spec_rows(&self) -> int {
        self.rows as int
    }

    pub open spec fn spec_data(&self) -> Seq<i64> {
        self.data@
    }

    pub open spec fn wf(&self) -> bool {
        &&& 0 <= self.cols
        &&& 0 <= self.rows
        &&& self.data@.len() == self.cols * self.rows
    }

    /// A zero matrix with the given shape.
    pub fn new(cols: i32, rows: i32) -> (ret: Matrix)
        requires
            0 <= cols,
            0 <= rows,
            cols * rows <= usize::MAX,
        ensures
            ret.wf(),
            ret.spec_cols() == cols,
            ret.spec_rows() == rows,
            forall|i: int| 0 <= i < ret.spec_data().len() ==> ret.spec_data()[i] == 0,
    {
        proof {
            assert(0 <= cols * rows) by (nonlinear_arith)
                requires
                    0 <= cols,
                    0 <= rows,
            ;
        }
        let n: usize = (cols as usize) * (rows as usize);
        let mut data: Vec<i64> = Vec::new();
        let mut k: usize = 0;
        while k < n
            invariant
                k <= n,
                data@.len() == k,
                forall|i: int| 0 <= i < k ==> data@[i] == 0,
            decreases n - k,
        {
            data.push(0);
            k = k + 1;
        }
        Matrix { cols, rows, data }
    }

    /// The square identity matrix: fixed-point one on the diagonal,
    /// zero elsewhere, stored column-major.
    pub fn identity(dim: i32) -> (ret: Matrix)
        requires
            0 <= dim,
            dim * dim <= i32::MAX,
        ensures
            ret.wf(),
            ret.spec_cols() == dim,
            ret.spec_rows() == dim,
            forall|c: int, r: int|
                0 <= c < dim && 0 <= r < dim ==> #[trigger] ret.ent(c, r) == (if c == r {
                    FX_ONE
                } else {
                    0i64
                }),
    {
        let mut ret = Matrix::new(dim, dim);
        let mut c: i32 = 0;
        while c < dim
            invariant
                0 <= c <= dim,
                dim * dim <= i32::MAX,
                ret.wf(),
                ret.spec_cols() == dim,
                ret.spec_rows() == dim,
                forall|cc: int, rr: int|
                    0 <= cc < c && 0 <= rr < dim ==> #[trigger] ret.ent(cc, rr) == (if cc == rr {
                        FX_ONE
                    } else {
                        0i64
                    }),
            decreases dim - c,
        {
            let mut r: i32 = 0;
            while r < dim
                invariant
                    0 <= c < dim,
                    0 <= r <= dim,
                    dim * dim <= i32::MAX,
                    ret.wf(),
                    ret.spec_cols() == dim,
                    ret.spec_rows() == dim,
                    forall|cc: int, rr: int|
                        0 <= cc < c && 0 <= rr < dim ==> #[trigger] ret.ent(cc, rr) == (if cc
                            == rr {
                            FX_ONE
                        } else {
                            0i64
                        }),
                    forall|rr: int|
                        0 <= rr < r ==> #[trigger] ret.ent(c as int, rr) == (if c == rr {
                            FX_ONE
                        } else {
                            0i64
                        }),
                decreases dim - r,
            {
                proof {
                    assert(0 <= c * dim + r < dim * dim) by (nonlinear_arith)
                        requires
                            0 <= c < dim,
                            0 <= r < dim,
                    ;
                }
                let ghost before = ret;
                let i = (c * ret.rows + r) as usize;
                if c == r {
                    ret.data[i] = FX_ONE;
                } else {
                    ret.data[i] = 0;
                }
                proof {
                    assert forall|cc: int, rr: int|
                        0 <= cc < dim && 0 <= rr < dim && (cc != c || rr != r) implies #[trigger]
                    ret.ent(cc, rr) == before.ent(cc, rr) by {
                        lemma_colmajor_distinct(dim as int, cc, rr, c as int, r as int);
                    }
                    assert(ret.ent(c as int, r as int) == (if c == r {
                        FX_ONE
                    } else {
                        0i64
                    }));
                }
                r = r + 1;
            }
            c = c + 1;
        }
        ret
    }

    /// Scale every element by a fixed-point factor.
    pub fn mul(self, other: i64) -> (ret: Matrix)
        requires
            self.wf(),
            forall|i: int|
                0 <= i < self.spec_data().len() ==> -(i64::MAX as int) * (FX_ONE as int) <= (
                #[trigger] self.spec_data()[i]) * other <= (i64::MAX as int) * (FX_ONE as int),
        ensures
            ret.wf(),
            ret.spec_cols() == self.spec_cols(),
            ret.spec_rows() == self.spec_rows(),
            ret.spec_data().len() == self.spec_data().len(),
            forall|i: int|
                0 <= i < ret.spec_data().len() ==> ret.spec_data()[i] == fx_mul_spec(
                    self.spec_data()[i] as int,
                    other as int,
                ),
    {
        let ghost orig = self.data@;
        proof {
            assert forall|i: int|
                0 <= i < orig.len() implies -(i64::MAX as int) * (FX_ONE as int) <= (
            #[trigger] orig[i]) * other <= (i64::MAX as int) * (FX_ONE as int) by {
                assert(orig[i] == self.spec_data()[i]);
            }
        }
        let mut ret = self;
        let n: usize = ret.data.len();
        let mut k: usize = 0;
        while k < n
            invariant
                k <= n,
                n == ret.spec_data().len(),
                orig.len() == n,
                ret.wf(),
                ret.spec_cols() == self.spec_cols(),
                ret.spec_rows() == self.spec_rows(),
                forall|i: int|
                    0 <= i < n ==> -(i64::MAX as int) * (FX_ONE as int) <= (#[trigger] orig[i])
                        * other <= (i64::MAX as int) * (FX_ONE as int),
                forall|i: int| k <= i < n ==> ret.spec_data()[i] == orig[i],
                forall|i: int|
                    0 <= i < k ==> ret.spec_data()[i] == fx_mul_spec(orig[i] as int, other as int),
            decreases n - k,
        {
            let v = ret.data[k];
            proof {
                assert(v == orig[k as int]);
            }
            ret.data[k] = fx_mul(v, other);
            k = k + 1;
        }
        proof {
            assert forall|i: int|
                0 <= i < ret.spec_data().len() implies #[trigger] ret.spec_data()[i]
                == fx_mul_spec(self.spec_data()[i] as int, other as int) by {
                assert(orig[i] == self.spec_data()[i]);
            }
        }
        ret
    }
}

} // verus!
