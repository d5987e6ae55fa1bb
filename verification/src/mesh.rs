//! Vertices, triangle faces and meshes, the `Renderable` capability,
//! and the per-frame transform pipeline that carries a mesh from model
//! space to the rasterizer.

use vstd::prelude::*;
use crate::display::DisplayBuffer;
use crate::display::Color;
use crate::vector::Vector3;
use crate::vector::vec3_bounded;
use crate::vector::dot3_spec;
use crate::vector::len_sq_spec;
use crate::matrix::Vector4;
use crate::matrix::Matrix4;
use crate::matrix::mat4_bounded;
use crate::matrix::vec4_bounded;
use crate::matrix::mat4_vec_spec;
use crate::matrix::mat4_mul_spec;
use crate::matrix::translation_spec;
use crate::matrix::rotation_x_spec;
use crate::matrix::rotation_y_spec;
use crate::matrix::rotation_z_spec;
use crate::matrix::view_matrix_spec;
use crate::matrix::view_z_spec;
use crate::matrix::view_x_spec;
use crate::matrix::cross_spec;
use crate::matrix::sub3_spec;
use crate::matrix::normalize_spec;
use crate::matrix::perspective_spec;
use crate::matrix::translation;
use crate::matrix::rotation_x;
use crate::matrix::rotation_y;
use crate::matrix::rotation_z;
use crate::matrix::build_view_matrix;
use crate::matrix::build_perspective_matrix;
use crate::matrix::lemma_mat4_mul_bounded;
use crate::matrix::lemma_mat4_vec_bounded;
use crate::fx::FX_ONE;
use crate::fx::tdiv;
use crate::fx::sdiv;
use crate::fx::fx_mul_spec;
use crate::fx::fx_div_spec;
use crate::fx::tdiv128;
use crate::fx::sdiv128;
use crate::fx::fx_div;
use crate::fx::lemma_tdiv_bound;
use crate::fx::lemma_sdiv_le;
use crate::fx::lemma_ge_one_mul;

verus! {

/// The near clip plane distance, 0.1 in fixed point.
pub const NEAR_PLANE: i64 = 6554;

/// The far clip plane distance, 5.0 in fixed point.
pub const FAR_PLANE: i64 = 327680;

/// The tangent of half the vertical field of view (the field of view
/// is 78 degrees), in fixed point.
pub const TAN_HALF_FOV: i64 = 53070;

/// A vertex carries a position (its type varies with the pipeline
/// stage), a color, and a normal vector.
#[derive(Copy, Clone)]
pub struct Vertex<T: Copy> {
    /// Color of the vertex
    pub color: Color,
    /// Position of the vertex
    pub position: T,
    /// Normal vector of the vertex
    pub normal: Vector3,
}

/// A triangle face: three vertices of a common position type.
#[derive(Copy, Clone)]
pub struct Face<T: Copy> {
    /// Vertex of a triangle
    pub v0: Vertex<T>,
    /// Vertex of a triangle
    pub v1: Vertex<T>,
    /// Vertex of a triangle
    pub v2: Vertex<T>,
}

/// Renderable represents any model that can be drawn to a display buffer.
///
/// An implementation fixes, as spec functions, exactly which pixel bytes
/// and depth values it leaves behind; `render` is then proved to produce
/// just those.
pub trait Renderable {
    /// Whether the model's coordinates are within the ranges the
    /// rasterizer accepts.
    spec fn renderable(&self) -> bool;

    /// The pixel bytes the model leaves in a buffer with the given
    /// planes and dimensions.
    spec fn spec_render_data(
        &self,
        data: Seq<u8>,
        zbuf: Seq<i64>,
        width: int,
        height: int,
    ) -> Seq<u8>;

    /// The depth values the model leaves in a buffer with the given
    /// planes and dimensions.
    spec fn spec_render_zbuf(
        &self,
        data: Seq<u8>,
        zbuf: Seq<i64>,
        width: int,
        height: int,
    ) -> Seq<i64>;

    /// Draw the model to a display buffer (render target).
    fn render(&self, buffer: &mut DisplayBuffer)
        requires
            old(buffer).wf(),
            self.renderable(),
        ensures
            final(buffer).wf(),
            final(buffer).width == old(buffer).width,
            final(buffer).height == old(buffer).height,
            final(buffer).bpp == old(buffer).bpp,
            final(buffer).data@ == self.spec_render_data(
                old(buffer).data@,
                old(buffer).z_buffer@,
                old(buffer).width as int,
                old(buffer).height as int,
            ),
            final(buffer).z_buffer@ == self.spec_render_zbuf(
                old(buffer).data@,
                old(buffer).z_buffer@,
                old(buffer).width as int,
                old(buffer).height as int,
            ),
    ;
}

/// The cofactor of the upper-left 3x3 block of `m` at row `i`,
/// column `j`.
pub open spec fn cof3_spec(m: Matrix4, i: int, j: int) -> int {
    if i == 0 && j == 0 {
        m.m11 * m.m22 - m.m12 * m.m21
    } else if i == 0 && j == 1 {
        -(m.m10 * m.m22 - m.m12 * m.m20)
    } else if i == 0 && j == 2 {
        m.m10 * m.m21 - m.m11 * m.m20
    } else if i == 1 && j == 0 {
        -(m.m01 * m.m22 - m.m02 * m.m21)
    } else if i == 1 && j == 1 {
        m.m00 * m.m22 - m.m02 * m.m20
    } else if i == 1 && j == 2 {
        -(m.m00 * m.m21 - m.m01 * m.m20)
    } else if i == 2 && j == 0 {
        m.m01 * m.m12 - m.m02 * m.m11
    } else if i == 2 && j == 1 {
        -(m.m00 * m.m12 - m.m02 * m.m10)
    } else {
        m.m00 * m.m11 - m.m01 * m.m10
    }
}

/// The determinant of the upper-left 3x3 block of `m`, in raw
/// (scale-cubed) units.
pub open spec fn det3_spec(m: Matrix4) -> int {
    m.m00 * cof3_spec(m, 0, 0) + m.m01 * cof3_spec(m, 0, 1) + m.m02 * cof3_spec(m, 0, 2)
}

/// One entry of the normal-transform matrix: the inverse transpose of
/// the upper 3x3 block, which is the cofactor matrix over the
/// determinant, rescaled to fixed point.
pub open spec fn normal_entry_spec(m: Matrix4, i: int, j: int) -> int {
    sdiv(cof3_spec(m, i, j) * FX_ONE * FX_ONE, det3_spec(m))
}

/// Whether every entry of the normal-transform matrix fits the range
/// the pipeline carries normals in.
pub open spec fn normal_mat_fits(m: Matrix4) -> bool {
    &&& -0x100000000 <= normal_entry_spec(m, 0, 0) <= 0x100000000
    &&& -0x100000000 <= normal_entry_spec(m, 0, 1) <= 0x100000000
    &&& -0x100000000 <= normal_entry_spec(m, 0, 2) <= 0x100000000
    &&& -0x100000000 <= normal_entry_spec(m, 1, 0) <= 0x100000000
    &&& -0x100000000 <= normal_entry_spec(m, 1, 1) <= 0x100000000
    &&& -0x100000000 <= normal_entry_spec(m, 1, 2) <= 0x100000000
    &&& -0x100000000 <= normal_entry_spec(m, 2, 0) <= 0x100000000
    &&& -0x100000000 <= normal_entry_spec(m, 2, 1) <= 0x100000000
    &&& -0x100000000 <= normal_entry_spec(m, 2, 2) <= 0x100000000
}

/// A matrix the face transform accepts: bounded entries, an invertible
/// upper 3x3 block, and a normal matrix in range.
pub open spec fn transformable(m: Matrix4) -> bool {
    &&& mat4_bounded(m, 0x40000000)
    &&& det3_spec(m) != 0
    &&& normal_mat_fits(m)
}

/// A normal vector transformed by the inverse transpose of the upper
/// 3x3 block of `m`.
pub open spec fn xform_normal_spec(m: Matrix4, n: Vector3) -> Vector3 {
    Vector3 {
        x: tdiv(
            normal_entry_spec(m, 0, 0) * n.x + normal_entry_spec(m, 0, 1) * n.y
                + normal_entry_spec(m, 0, 2) * n.z,
            FX_ONE as int,
        ) as i64,
        y: tdiv(
            normal_entry_spec(m, 1, 0) * n.x + normal_entry_spec(m, 1, 1) * n.y
                + normal_entry_spec(m, 1, 2) * n.z,
            FX_ONE as int,
        ) as i64,
        z: tdiv(
            normal_entry_spec(m, 2, 0) * n.x + normal_entry_spec(m, 2, 1) * n.y
                + normal_entry_spec(m, 2, 2) * n.z,
            FX_ONE as int,
        ) as i64,
    }
}

/// One vertex through a linear transformation: the position by the
/// matrix itself, the normal by its inverse transpose, the color as is.
pub open spec fn vertex_transform_spec(m: Matrix4, v: Vertex<Vector4>) -> Vertex<Vector4> {
    Vertex { color: v.color, position: mat4_vec_spec(m, v.position), normal: xform_normal_spec(m, v.normal) }
}

/// A whole face through a linear transformation.
pub open spec fn face_transform_spec(m: Matrix4, f: Face<Vector4>) -> Face<Vector4> {
    Face {
        v0: vertex_transform_spec(m, f.v0),
        v1: vertex_transform_spec(m, f.v1),
        v2: vertex_transform_spec(m, f.v2),
    }
}

/// Coordinate ranges under which the face transform cannot overflow.
pub open spec fn face_in_range(f: Face<Vector4>) -> bool {
    &&& vec4_bounded(f.v0.position, 0x400000000)
    &&& vec4_bounded(f.v1.position, 0x400000000)
    &&& vec4_bounded(f.v2.position, 0x400000000)
    &&& vec3_bounded(f.v0.normal, 0x10000000000)
    &&& vec3_bounded(f.v1.normal, 0x10000000000)
    &&& vec3_bounded(f.v2.normal, 0x10000000000)
}

/// The product of values bounded by `bx` and `by` is bounded by
/// `bx * by`.
proof fn lemma_mul_bound2f(x: int, y: int, bx: int, by: int)
    by (nonlinear_arith)
    requires
        -bx <= x <= bx,
        -by <= y <= by,
        0 <= bx,
        0 <= by,
    ensures
        -(bx * by) <= x * y <= bx * by,
{
}

/// One row of the normal matrix applied to a normal vector.
fn xform_normal_row(n0: i64, n1: i64, n2: i64, v: Vector3) -> (r: i64)
    requires
        -0x100000000 <= n0 <= 0x100000000,
        -0x100000000 <= n1 <= 0x100000000,
        -0x100000000 <= n2 <= 0x100000000,
        vec3_bounded(v, 0x10000000000),
    ensures
        r as int == tdiv(n0 * v.x + n1 * v.y + n2 * v.z, FX_ONE as int),
{
    proof {
        lemma_mul_bound2f(n0 as int, v.x as int, 0x100000000, 0x10000000000);
        lemma_mul_bound2f(n1 as int, v.y as int, 0x100000000, 0x10000000000);
        lemma_mul_bound2f(n2 as int, v.z as int, 0x100000000, 0x10000000000);
        lemma_tdiv_bound(n0 * v.x + n1 * v.y + n2 * v.z, FX_ONE as int, 0x1000000000000000);
    }
    let s: i128 = (n0 as i128) * (v.x as i128) + (n1 as i128) * (v.y as i128) + (n2 as i128) * (
    v.z as i128);
    tdiv128(s, FX_ONE as i128) as i64
}

impl Face<Vector4> {
    /// Perform a linear transformation on all vertices of the triangle.
    ///
    /// Normal vectors cannot simply be transformed with the matrix `m`
    /// like vertex coordinates: when the vertices are scaled by some
    /// factor in an axis, the normals must be scaled by its inverse to
    /// stay perpendicular to the surface. This is achieved by
    /// transforming the normals with the inverse transpose of the
    /// upper 3x3 block of `m`.
    pub fn transform(&self, m: Matrix4) -> (r: Face<Vector4>)
        requires
            transformable(m),
            face_in_range(*self),
        ensures
            r == face_transform_spec(m, *self),
    {
        proof {
            lemma_mul_bound2f(m.m11 as int, m.m22 as int, 0x40000000, 0x40000000);
            lemma_mul_bound2f(m.m12 as int, m.m21 as int, 0x40000000, 0x40000000);
            lemma_mul_bound2f(m.m10 as int, m.m22 as int, 0x40000000, 0x40000000);
            lemma_mul_bound2f(m.m12 as int, m.m20 as int, 0x40000000, 0x40000000);
            lemma_mul_bound2f(m.m10 as int, m.m21 as int, 0x40000000, 0x40000000);
            lemma_mul_bound2f(m.m11 as int, m.m20 as int, 0x40000000, 0x40000000);
            lemma_mul_bound2f(m.m01 as int, m.m22 as int, 0x40000000, 0x40000000);
            lemma_mul_bound2f(m.m02 as int, m.m21 as int, 0x40000000, 0x40000000);
            lemma_mul_bound2f(m.m00 as int, m.m22 as int, 0x40000000, 0x40000000);
            lemma_mul_bound2f(m.m02 as int, m.m20 as int, 0x40000000, 0x40000000);
            lemma_mul_bound2f(m.m00 as int, m.m21 as int, 0x40000000, 0x40000000);
            lemma_mul_bound2f(m.m01 as int, m.m20 as int, 0x40000000, 0x40000000);
            lemma_mul_bound2f(m.m01 as int, m.m12 as int, 0x40000000, 0x40000000);
            lemma_mul_bound2f(m.m02 as int, m.m11 as int, 0x40000000, 0x40000000);
            lemma_mul_bound2f(m.m00 as int, m.m12 as int, 0x40000000, 0x40000000);
            lemma_mul_bound2f(m.m02 as int, m.m10 as int, 0x40000000, 0x40000000);
            lemma_mul_bound2f(m.m00 as int, m.m11 as int, 0x40000000, 0x40000000);
            lemma_mul_bound2f(m.m01 as int, m.m10 as int, 0x40000000, 0x40000000);
        }
        let c00: i64 = m.m11 * m.m22 - m.m12 * m.m21;
        let c01: i64 = -(m.m10 * m.m22 - m.m12 * m.m20);
        let c02: i64 = m.m10 * m.m21 - m.m11 * m.m20;
        let c10: i64 = -(m.m01 * m.m22 - m.m02 * m.m21);
        let c11: i64 = m.m00 * m.m22 - m.m02 * m.m20;
        let c12: i64 = -(m.m00 * m.m21 - m.m01 * m.m20);
        let c20: i64 = m.m01 * m.m12 - m.m02 * m.m11;
        let c21: i64 = -(m.m00 * m.m12 - m.m02 * m.m10);
        let c22: i64 = m.m00 * m.m11 - m.m01 * m.m10;
        proof {
            lemma_mul_bound2f(m.m00 as int, c00 as int, 0x40000000, 0x4000000000000000);
            lemma_mul_bound2f(m.m01 as int, c01 as int, 0x40000000, 0x4000000000000000);
            lemma_mul_bound2f(m.m02 as int, c02 as int, 0x40000000, 0x4000000000000000);
        }
        let det: i128 = (m.m00 as i128) * (c00 as i128) + (m.m01 as i128) * (c01 as i128) + (m.m02
            as i128) * (c02 as i128);
        proof {
            assert(det as int == det3_spec(m));
        }
        let sq: i128 = 0x100000000;
        proof {
            assert(sq as int == (FX_ONE as int) * (FX_ONE as int));
        }
        proof {
            lemma_mul_bound2f(c00 as int, sq as int, 0x4000000000000000, 0x100000000);
            lemma_mul_bound2f(c01 as int, sq as int, 0x4000000000000000, 0x100000000);
            lemma_mul_bound2f(c02 as int, sq as int, 0x4000000000000000, 0x100000000);
            lemma_mul_bound2f(c10 as int, sq as int, 0x4000000000000000, 0x100000000);
            lemma_mul_bound2f(c11 as int, sq as int, 0x4000000000000000, 0x100000000);
            lemma_mul_bound2f(c12 as int, sq as int, 0x4000000000000000, 0x100000000);
            lemma_mul_bound2f(c20 as int, sq as int, 0x4000000000000000, 0x100000000);
            lemma_mul_bound2f(c21 as int, sq as int, 0x4000000000000000, 0x100000000);
            lemma_mul_bound2f(c22 as int, sq as int, 0x4000000000000000, 0x100000000);
        }
        let n00 = sdiv128((c00 as i128) * sq, det) as i64;
        let n01 = sdiv128((c01 as i128) * sq, det) as i64;
        let n02 = sdiv128((c02 as i128) * sq, det) as i64;
        let n10 = sdiv128((c10 as i128) * sq, det) as i64;
        let n11 = sdiv128((c11 as i128) * sq, det) as i64;
        let n12 = sdiv128((c12 as i128) * sq, det) as i64;
        let n20 = sdiv128((c20 as i128) * sq, det) as i64;
        let n21 = sdiv128((c21 as i128) * sq, det) as i64;
        let n22 = sdiv128((c22 as i128) * sq, det) as i64;
        proof {
            assert(n00 as int == normal_entry_spec(m, 0, 0));
            assert(n01 as int == normal_entry_spec(m, 0, 1));
            assert(n02 as int == normal_entry_spec(m, 0, 2));
            assert(n10 as int == normal_entry_spec(m, 1, 0));
            assert(n11 as int == normal_entry_spec(m, 1, 1));
            assert(n12 as int == normal_entry_spec(m, 1, 2));
            assert(n20 as int == normal_entry_spec(m, 2, 0));
            assert(n21 as int == normal_entry_spec(m, 2, 1));
            assert(n22 as int == normal_entry_spec(m, 2, 2));
        }

        Face {
            v0: Vertex {
                position: m.mul_vec(self.v0.position),
                color: self.v0.color,
                normal: Vector3 {
                    x: xform_normal_row(n00, n01, n02, self.v0.normal),
                    y: xform_normal_row(n10, n11, n12, self.v0.normal),
                    z: xform_normal_row(n20, n21, n22, self.v0.normal),
                },
            },
            v1: Vertex {
                position: m.mul_vec(self.v1.position),
                color: self.v1.color,
                normal: Vector3 {
                    x: xform_normal_row(n00, n01, n02, self.v1.normal),
                    y: xform_normal_row(n10, n11, n12, self.v1.normal),
                    z: xform_normal_row(n20, n21, n22, self.v1.normal),
                },
            },
            v2: Vertex {
                position: m.mul_vec(self.v2.position),
                color: self.v2.color,
                normal: Vector3 {
                    x: xform_normal_row(n00, n01, n02, self.v2.normal),
                    y: xform_normal_row(n10, n11, n12, self.v2.normal),
                    z: xform_normal_row(n20, n21, n22, self.v2.normal),
                },
            },
        }
    }
}

/// The cosine and sine of a mesh's three Euler angles, in fixed point.
/// The host environment computes these from `Mesh::angle`; everything
/// that follows from them is exact integer work.
#[derive(Copy, Clone)]
pub struct EulerTrig {
    pub cos_x: i64,
    pub sin_x: i64,
    pub cos_y: i64,
    pub sin_y: i64,
    pub cos_z: i64,
    pub sin_z: i64,
}

/// Trig values are fixed-point cosines and sines: magnitude at most one.
pub open spec fn trig_bounded(t: EulerTrig) -> bool {
    &&& -FX_ONE <= t.cos_x <= FX_ONE
    &&& -FX_ONE <= t.sin_x <= FX_ONE
    &&& -FX_ONE <= t.cos_y <= FX_ONE
    &&& -FX_ONE <= t.sin_y <= FX_ONE
    &&& -FX_ONE <= t.cos_z <= FX_ONE
    &&& -FX_ONE <= t.sin_z <= FX_ONE
}

/// The model matrix: translation to the mesh position composed with
/// the rotations about z, y and x, in that fixed order.
pub open spec fn model_matrix_spec(position: Vector4, t: EulerTrig) -> Matrix4 {
    mat4_mul_spec(
        mat4_mul_spec(
            mat4_mul_spec(
                translation_spec(position.x, position.y, position.z),
                rotation_z_spec(t.cos_z, t.sin_z),
            ),
            rotation_y_spec(t.cos_y, t.sin_y),
        ),
        rotation_x_spec(t.cos_x, t.sin_x),
    )
}

/// The world up direction: always +Y, there is no roll.
pub open spec fn world_up() -> Vector3 {
    Vector3 { x: 0, y: FX_ONE, z: 0 }
}

/// The aspect ratio of a pixel grid, in fixed point.
pub open spec fn aspect_spec(width: int, height: int) -> int {
    fx_div_spec(width * FX_ONE, height * FX_ONE)
}

/// The projection matrix the renderer uses: the fixed near plane, far
/// plane and field of view over the buffer's aspect ratio.
pub open spec fn render_projection_spec(width: int, height: int) -> Matrix4 {
    perspective_spec(NEAR_PLANE, FAR_PLANE, TAN_HALF_FOV, aspect_spec(width, height) as i64)
}

/// The world-space position of a vertex, with the homogeneous
/// coordinate dropped.
pub open spec fn world_pos3(v: Vertex<Vector4>) -> Vector3 {
    Vector3 { x: v.position.x, y: v.position.y, z: v.position.z }
}

/// The brightness of a vertex: the dot product of the unit vector from
/// the vertex toward the eye with the vertex normal. A vertex at the
/// eye itself, or too far away for fixed-point normalization, counts
/// as unlit.
pub open spec fn brightness_spec(eye: Vector3, v: Vertex<Vector4>) -> int {
    let d = sub3_spec(eye, world_pos3(v));
    if vec3_bounded(d, 0x80000000) && 1 <= len_sq_spec(d) {
        dot3_spec(normalize_spec(d), v.normal)
    } else {
        0
    }
}

/// World-stage ranges: positions small enough for the next transform,
/// normals small enough for the lighting dot product.
pub open spec fn face_ok_world(f: Face<Vector4>) -> bool {
    &&& vec4_bounded(f.v0.position, 0x400000000)
    &&& vec4_bounded(f.v1.position, 0x400000000)
    &&& vec4_bounded(f.v2.position, 0x400000000)
    &&& vec3_bounded(f.v0.normal, 0x80000000)
    &&& vec3_bounded(f.v1.normal, 0x80000000)
    &&& vec3_bounded(f.v2.normal, 0x80000000)
}

/// Camera-stage ranges: positions small enough for the projection.
pub open spec fn face_ok_view(f: Face<Vector4>) -> bool {
    &&& vec4_bounded(f.v0.position, 0x400000000)
    &&& vec4_bounded(f.v1.position, 0x400000000)
    &&& vec4_bounded(f.v2.position, 0x400000000)
    &&& vec3_bounded(f.v0.normal, 0x10000000000)
    &&& vec3_bounded(f.v1.normal, 0x10000000000)
    &&& vec3_bounded(f.v2.normal, 0x10000000000)
}

/// A normalized device coordinate: the clip coordinate divided by w.
pub open spec fn ndc_spec(c: int, w: int) -> int {
    sdiv(c * FX_ONE, w)
}

/// The viewport transform: `(1 + ndc) / 2` of the buffer extent, as a
/// whole pixel count.
pub open spec fn raster_coord_spec(c: int, w: int, extent: int) -> int {
    tdiv((FX_ONE + ndc_spec(c, w)) * extent, 2 * FX_ONE)
}

/// One color channel scaled by a brightness: negative light blacks the
/// channel out, overshoot saturates.
pub open spec fn shade_channel_spec(ch: u8, b: int) -> u8 {
    let v = tdiv(ch * b, FX_ONE as int);
    if v < 0 {
        0u8
    } else if v > 255 {
        255u8
    } else {
        v as u8
    }
}

/// A clip-space vertex taken to raster space: perspective divide for x
/// and y, the undivided clip z kept as the linear depth value, and the
/// color scaled by the vertex brightness (alpha is kept).
pub open spec fn raster_vertex_spec(v: Vertex<Vector4>, b: int, width: int, height: int) -> Vertex<
    Vector3,
> {
    Vertex {
        color: Color {
            r: shade_channel_spec(v.color.r, b),
            g: shade_channel_spec(v.color.g, b),
            b: shade_channel_spec(v.color.b, b),
            a: v.color.a,
        },
        position: Vector3 {
            x: raster_coord_spec(v.position.x as int, v.position.w as int, width) as i64,
            y: raster_coord_spec(v.position.y as int, v.position.w as int, height) as i64,
            z: v.position.z,
        },
        normal: v.normal,
    }
}

/// Everything one face leaves in the buffer: the full pipeline. The
/// face goes to world space (lighting is computed there and back-facing
/// or unlit faces are dropped), then to camera and clip space, through
/// the perspective divide and viewport transform, and is finally filled
/// by the rasterizer. A face that leaves the fixed-point coordinate
/// ranges at any stage is dropped whole, never clipped.
pub open spec fn spec_render_face(
    face: Face<Vector4>,
    model: Matrix4,
    view: Matrix4,
    proj: Matrix4,
    eye: Vector3,
    width: int,
    height: int,
    data: Seq<u8>,
    zbuf: Seq<i64>,
) -> (Seq<u8>, Seq<i64>) {
    let fw = face_transform_spec(model, face);
    if !face_ok_world(fw) {
        (data, zbuf)
    } else {
        let b0 = brightness_spec(eye, fw.v0);
        let b1 = brightness_spec(eye, fw.v1);
        let b2 = brightness_spec(eye, fw.v2);
        if !(b0 > 0 || b1 > 0 || b2 > 0) {
            (data, zbuf)
        } else {
            let fv = face_transform_spec(view, fw);
            if !face_ok_view(fv) {
                (data, zbuf)
            } else {
                let fc = face_transform_spec(proj, fv);
                if fc.v0.position.w == 0 || fc.v1.position.w == 0 || fc.v2.position.w == 0 {
                    (data, zbuf)
                } else {
                    let rf = Face {
                        v0: raster_vertex_spec(fc.v0, b0, width, height),
                        v1: raster_vertex_spec(fc.v1, b1, width, height),
                        v2: raster_vertex_spec(fc.v2, b2, width, height),
                    };
                    if !rf.renderable() {
                        (data, zbuf)
                    } else {
                        (
                            rf.spec_render_data(data, zbuf, width, height),
                            rf.spec_render_zbuf(data, zbuf, width, height),
                        )
                    }
                }
            }
        }
    }
}

/// Everything a mesh leaves in the buffer: its faces rendered in order.
pub open spec fn spec_render_mesh(
    faces: Seq<Face<Vector4>>,
    model: Matrix4,
    view: Matrix4,
    proj: Matrix4,
    eye: Vector3,
    width: int,
    height: int,
    data: Seq<u8>,
    zbuf: Seq<i64>,
) -> (Seq<u8>, Seq<i64>)
    decreases faces.len(),
{
    if faces.len() == 0 {
        (data, zbuf)
    } else {
        let prev = spec_render_mesh(
            faces.drop_last(),
            model,
            view,
            proj,
            eye,
            width,
            height,
            data,
            zbuf,
        );
        spec_render_face(faces.last(), model, view, proj, eye, width, height, prev.0, prev.1)
    }
}

/// Model-space ranges under which the whole pipeline is free of
/// fixed-point overflow.
pub open spec fn face_model_in_range(f: Face<Vector4>) -> bool {
    &&& vec4_bounded(f.v0.position, 0x1000000)
    &&& vec4_bounded(f.v1.position, 0x1000000)
    &&& vec4_bounded(f.v2.position, 0x1000000)
    &&& vec3_bounded(f.v0.normal, 0x1000000)
    &&& vec3_bounded(f.v1.normal, 0x1000000)
    &&& vec3_bounded(f.v2.normal, 0x1000000)
}

/// Whether the world-stage ranges hold, checked at run time.
fn check_face_ok_world(f: &Face<Vector4>) -> (r: bool)
    ensures
        r == face_ok_world(*f),
{
    -0x400000000 <= f.v0.position.x && f.v0.position.x <= 0x400000000 && -0x400000000
        <= f.v0.position.y && f.v0.position.y <= 0x400000000 && -0x400000000 <= f.v0.position.z
        && f.v0.position.z <= 0x400000000 && -0x400000000 <= f.v0.position.w && f.v0.position.w
        <= 0x400000000 && -0x400000000 <= f.v1.position.x && f.v1.position.x <= 0x400000000
        && -0x400000000 <= f.v1.position.y && f.v1.position.y <= 0x400000000 && -0x400000000
        <= f.v1.position.z && f.v1.position.z <= 0x400000000 && -0x400000000 <= f.v1.position.w
        && f.v1.position.w <= 0x400000000 && -0x400000000 <= f.v2.position.x && f.v2.position.x
        <= 0x400000000 && -0x400000000 <= f.v2.position.y && f.v2.position.y <= 0x400000000
        && -0x400000000 <= f.v2.position.z && f.v2.position.z <= 0x400000000 && -0x400000000
        <= f.v2.position.w && f.v2.position.w <= 0x400000000 && -0x80000000 <= f.v0.normal.x
        && f.v0.normal.x <= 0x80000000 && -0x80000000 <= f.v0.normal.y && f.v0.normal.y
        <= 0x80000000 && -0x80000000 <= f.v0.normal.z && f.v0.normal.z <= 0x80000000
        && -0x80000000 <= f.v1.normal.x && f.v1.normal.x <= 0x80000000 && -0x80000000
        <= f.v1.normal.y && f.v1.normal.y <= 0x80000000 && -0x80000000 <= f.v1.normal.z
        && f.v1.normal.z <= 0x80000000 && -0x80000000 <= f.v2.normal.x && f.v2.normal.x
        <= 0x80000000 && -0x80000000 <= f.v2.normal.y && f.v2.normal.y <= 0x80000000
        && -0x80000000 <= f.v2.normal.z && f.v2.normal.z <= 0x80000000
}

/// Whether the camera-stage ranges hold, checked at run time.
fn check_face_ok_view(f: &Face<Vector4>) -> (r: bool)
    ensures
        r == face_ok_view(*f),
{
    -0x400000000 <= f.v0.position.x && f.v0.position.x <= 0x400000000 && -0x400000000
        <= f.v0.position.y && f.v0.position.y <= 0x400000000 && -0x400000000 <= f.v0.position.z
        && f.v0.position.z <= 0x400000000 && -0x400000000 <= f.v0.position.w && f.v0.position.w
        <= 0x400000000 && -0x400000000 <= f.v1.position.x && f.v1.position.x <= 0x400000000
        && -0x400000000 <= f.v1.position.y && f.v1.position.y <= 0x400000000 && -0x400000000
        <= f.v1.position.z && f.v1.position.z <= 0x400000000 && -0x400000000 <= f.v1.position.w
        && f.v1.position.w <= 0x400000000 && -0x400000000 <= f.v2.position.x && f.v2.position.x
        <= 0x400000000 && -0x400000000 <= f.v2.position.y && f.v2.position.y <= 0x400000000
        && -0x400000000 <= f.v2.position.z && f.v2.position.z <= 0x400000000 && -0x400000000
        <= f.v2.position.w && f.v2.position.w <= 0x400000000 && -0x10000000000 <= f.v0.normal.x
        && f.v0.normal.x <= 0x10000000000 && -0x10000000000 <= f.v0.normal.y && f.v0.normal.y
        <= 0x10000000000 && -0x10000000000 <= f.v0.normal.z && f.v0.normal.z <= 0x10000000000
        && -0x10000000000 <= f.v1.normal.x && f.v1.normal.x <= 0x10000000000 && -0x10000000000
        <= f.v1.normal.y && f.v1.normal.y <= 0x10000000000 && -0x10000000000 <= f.v1.normal.z
        && f.v1.normal.z <= 0x10000000000 && -0x10000000000 <= f.v2.normal.x && f.v2.normal.x
        <= 0x10000000000 && -0x10000000000 <= f.v2.normal.y && f.v2.normal.y <= 0x10000000000
        && -0x10000000000 <= f.v2.normal.z && f.v2.normal.z <= 0x10000000000
}

/// The brightness of one world-space vertex.
fn brightness(eye: Vector3, v: &Vertex<Vector4>) -> (b: i64)
    requires
        vec3_bounded(eye, 0x1000000),
        vec4_bounded(v.position, 0x400000000),
        vec3_bounded(v.normal, 0x80000000),
    ensures
        b as int == brightness_spec(eye, *v),
        -0x1000000000 <= b <= 0x1000000000,
{
    let d = Vector3 {
        x: eye.x - v.position.x,
        y: eye.y - v.position.y,
        z: eye.z - v.position.z,
    };
    proof {
        assert(d == sub3_spec(eye, world_pos3(*v)));
    }
    let in_range = -0x80000000i64 <= d.x && d.x <= 0x80000000i64 && -0x80000000i64 <= d.y && d.y
        <= 0x80000000i64 && -0x80000000i64 <= d.z && d.z <= 0x80000000i64;
    if !in_range {
        proof {
            assert(!vec3_bounded(d, 0x80000000));
        }
        return 0;
    }
    proof {
        lemma_mul_bound2f(d.x as int, d.x as int, 0x80000000, 0x80000000);
        lemma_mul_bound2f(d.y as int, d.y as int, 0x80000000, 0x80000000);
        lemma_mul_bound2f(d.z as int, d.z as int, 0x80000000, 0x80000000);
    }
    let lsq: i128 = (d.x as i128) * (d.x as i128) + (d.y as i128) * (d.y as i128) + (d.z as i128)
        * (d.z as i128);
    proof {
        assert(d.x * d.x >= 0 && d.y * d.y >= 0 && d.z * d.z >= 0) by (nonlinear_arith);
        assert(lsq as int == len_sq_spec(d));
    }
    if lsq == 0 {
        return 0;
    }
    let nd = d.normalize();
    proof {
        assert(nd == normalize_spec(d));
    }
    proof {
        lemma_mul_bound2f(nd.x as int, v.normal.x as int, 0x10000, 0x80000000);
        lemma_mul_bound2f(nd.y as int, v.normal.y as int, 0x10000, 0x80000000);
        lemma_mul_bound2f(nd.z as int, v.normal.z as int, 0x10000, 0x80000000);
    }
    let b = nd.dot(v.normal);
    proof {
        lemma_tdiv_bound(
            nd.x * v.normal.x + nd.y * v.normal.y + nd.z * v.normal.z,
            FX_ONE as int,
            0x1000000000,
        );
    }
    b
}

/// One clip coordinate through the perspective divide and the viewport
/// transform, as a whole pixel count.
fn raster_coord(c: i64, w: i64, extent: i64) -> (r: i64)
    requires
        w != 0,
        1 <= extent <= 4096,
        -0x4000000000000 <= c <= 0x4000000000000,
    ensures
        r as int == raster_coord_spec(c as int, w as int, extent as int),
{
    proof {
        lemma_mul_bound2f(c as int, FX_ONE as int, 0x4000000000000, 0x10000);
    }
    let ndc: i128 = sdiv128((c as i128) * (FX_ONE as i128), w as i128);
    proof {
        lemma_sdiv_le(c as int * FX_ONE as int, w as int);
        lemma_mul_bound2f(
            FX_ONE as int + ndc as int,
            extent as int,
            0x50000000000000000,
            4096,
        );
        lemma_tdiv_bound(
            (FX_ONE as int + ndc as int) * extent as int,
            2 * FX_ONE as int,
            0x4000000000000000,
        );
    }
    tdiv128((FX_ONE as i128 + ndc) * (extent as i128), 2 * FX_ONE as i128) as i64
}

/// One color channel scaled by a brightness, saturating at black and
/// at full intensity.
fn shade_channel(ch: u8, b: i64) -> (r: u8)
    requires
        -0x1000000000 <= b <= 0x1000000000,
    ensures
        r == shade_channel_spec(ch, b as int),
{
    proof {
        lemma_mul_bound2f(ch as int, b as int, 255, 0x1000000000);
        lemma_tdiv_bound(ch as int * b as int, FX_ONE as int, 0xff00000000);
    }
    let v: i128 = tdiv128((ch as i128) * (b as i128), FX_ONE as i128);
    if v < 0 {
        0
    } else if v > 255 {
        255
    } else {
        v as u8
    }
}

/// One clip-space vertex taken to raster space.
fn raster_vertex(v: &Vertex<Vector4>, b: i64, width: i64, height: i64) -> (r: Vertex<Vector3>)
    requires
        v.position.w != 0,
        1 <= width <= 4096,
        1 <= height <= 4096,
        vec4_bounded(v.position, 0x4000000000000),
        -0x1000000000 <= b <= 0x1000000000,
    ensures
        r == raster_vertex_spec(*v, b as int, width as int, height as int),
{
    Vertex {
        color: Color {
            r: shade_channel(v.color.r, b),
            g: shade_channel(v.color.g, b),
            b: shade_channel(v.color.b, b),
            a: v.color.a,
        },
        position: Vector3 {
            x: raster_coord(v.position.x, v.position.w, width),
            y: raster_coord(v.position.y, v.position.w, height),
            z: v.position.z,
        },
        normal: v.normal,
    }
}

/// Render one face through the whole pipeline into the buffer.
fn render_face(
    face: &Face<Vector4>,
    model: Matrix4,
    view: Matrix4,
    projection: Matrix4,
    eye: Vector3,
    buffer: &mut DisplayBuffer,
)
    requires
        old(buffer).wf(),
        1 <= old(buffer).width <= 4096,
        1 <= old(buffer).height <= 4096,
        transformable(model),
        transformable(view),
        transformable(projection),
        vec3_bounded(eye, 0x1000000),
        face_model_in_range(*face),
    ensures
        final(buffer).wf(),
        final(buffer).width == old(buffer).width,
        final(buffer).height == old(buffer).height,
        final(buffer).bpp == old(buffer).bpp,
        (final(buffer).data@, final(buffer).z_buffer@) == spec_render_face(
            *face,
            model,
            view,
            projection,
            eye,
            old(buffer).width as int,
            old(buffer).height as int,
            old(buffer).data@,
            old(buffer).z_buffer@,
        ),
{
    let ghost width = buffer.width as int;
    let ghost height = buffer.height as int;
    let fw = face.transform(model);
    if !check_face_ok_world(&fw) {
        return ;
    }
    let b0 = brightness(eye, &fw.v0);
    let b1 = brightness(eye, &fw.v1);
    let b2 = brightness(eye, &fw.v2);
    if !(b0 > 0 || b1 > 0 || b2 > 0) {
        return ;
    }
    let fv = fw.transform(view);
    if !check_face_ok_view(&fv) {
        return ;
    }
    let fc = fv.transform(projection);
    proof {
        lemma_mat4_vec_bounded(projection, fv.v0.position, 0x40000000, 0x400000000,
            0x4000000000000);
        lemma_mat4_vec_bounded(projection, fv.v1.position, 0x40000000, 0x400000000,
            0x4000000000000);
        lemma_mat4_vec_bounded(projection, fv.v2.position, 0x40000000, 0x400000000,
            0x4000000000000);
    }
    if fc.v0.position.w == 0 || fc.v1.position.w == 0 || fc.v2.position.w == 0 {
        return ;
    }
    let w_px = buffer.width as i64;
    let h_px = buffer.height as i64;
    let rv0 = raster_vertex(&fc.v0, b0, w_px, h_px);
    let rv1 = raster_vertex(&fc.v1, b1, w_px, h_px);
    let rv2 = raster_vertex(&fc.v2, b2, w_px, h_px);
    let rf = Face { v0: rv0, v1: rv1, v2: rv2 };
    let ok = -8192 <= rv0.position.x && rv0.position.x <= 8192 && -8192 <= rv0.position.y
        && rv0.position.y <= 8192 && -8192 <= rv1.position.x && rv1.position.x <= 8192 && -8192
        <= rv1.position.y && rv1.position.y <= 8192 && -8192 <= rv2.position.x && rv2.position.x
        <= 8192 && -8192 <= rv2.position.y && rv2.position.y <= 8192;
    if !ok {
        proof {
            assert(!rf.renderable());
        }
        return ;
    }
    proof {
        assert(rf.renderable());
    }
    rf.render(buffer);
}

/// A mesh is a collection of triangle faces that form a 3D surface.
pub struct Mesh {
    /// World position of the center of the mesh
    pub position: Vector4,
    /// Rotation of the mesh around all 3 axis vectors, in fixed-point
    /// radians, accumulated additively per axis
    pub angle: Vector3,
    /// Triangle faces that make up the mesh surface
    pub faces: Vec<Face<Vector4>>,
}

impl Mesh {
    /// An empty mesh at the origin.
    pub fn new() -> (m: Mesh)
        ensures
            m.position == (Vector4 { x: 0, y: 0, z: 0, w: FX_ONE }),
            m.angle == (Vector3 { x: 0, y: 0, z: 0 }),
            m.faces@.len() == 0,
    {
        Mesh {
            position: Vector4 { x: 0, y: 0, z: 0, w: FX_ONE },
            angle: Vector3 { x: 0, y: 0, z: 0 },
            faces: Vec::new(),
        }
    }

    /// Translate (move) the mesh in space: the displacement accumulates
    /// into the position through a translation matrix.
    pub fn translate(&mut self, translation: Vector3)
        requires
            vec3_bounded(translation, 0x1000000),
            vec4_bounded(old(self).position, 0x400000000),
        ensures
            final(self).position == mat4_vec_spec(
                translation_spec(translation.x, translation.y, translation.z),
                old(self).position,
            ),
            final(self).angle == old(self).angle,
            final(self).faces == old(self).faces,
    {
        let xform = crate::matrix::translation(translation.x, translation.y, translation.z);
        self.position = xform.mul_vec(self.position);
    }

    /// Rotate the mesh: the angles accumulate additively per axis.
    pub fn rotate(&mut self, angle: Vector3)
        requires
            i64::MIN <= old(self).angle.x + angle.x <= i64::MAX,
            i64::MIN <= old(self).angle.y + angle.y <= i64::MAX,
            i64::MIN <= old(self).angle.z + angle.z <= i64::MAX,
        ensures
            final(self).angle.x == old(self).angle.x + angle.x,
            final(self).angle.y == old(self).angle.y + angle.y,
            final(self).angle.z == old(self).angle.z + angle.z,
            final(self).position == old(self).position,
            final(self).faces == old(self).faces,
    {
        self.angle.x = self.angle.x + angle.x;
        self.angle.y = self.angle.y + angle.y;
        self.angle.z = self.angle.z + angle.z;
    }

    /// Render the mesh into a display buffer.
    ///
    /// For every face: model to world space (lighting is computed
    /// there), world to camera space, camera to clip space, perspective
    /// divide, viewport transform, rasterization with depth testing.
    ///
    /// * `eye` - position of the camera eye
    /// * `lookat` - focus point of the eye
    /// * `trig` - cosine and sine of the mesh's Euler angles
    /// * `buffer` - display buffer (render target)
    #[verifier::rlimit(60)]
    pub fn render(&self, eye: Vector3, lookat: Vector3, trig: &EulerTrig, buffer: &mut DisplayBuffer)
        requires
            old(buffer).wf(),
            1 <= old(buffer).width <= 4096,
            1 <= old(buffer).height <= 4096,
            trig_bounded(*trig),
            vec4_bounded(self.position, 0x1000000),
            vec3_bounded(eye, 0x1000000),
            vec3_bounded(lookat, 0x1000000),
            1 <= len_sq_spec(sub3_spec(lookat, eye)),
            1 <= len_sq_spec(cross_spec(world_up(), view_z_spec(eye, lookat))),
            1 <= len_sq_spec(
                cross_spec(view_z_spec(eye, lookat), view_x_spec(eye, lookat, world_up())),
            ),
            transformable(model_matrix_spec(self.position, *trig)),
            transformable(view_matrix_spec(eye, lookat, world_up())),
            transformable(
                render_projection_spec(old(buffer).width as int, old(buffer).height as int),
            ),
            forall|i: int|
                0 <= i < self.faces@.len() ==> face_model_in_range(#[trigger] self.faces@[i]),
        ensures
            final(buffer).wf(),
            final(buffer).width == old(buffer).width,
            final(buffer).height == old(buffer).height,
            final(buffer).bpp == old(buffer).bpp,
            (final(buffer).data@, final(buffer).z_buffer@) == spec_render_mesh(
                self.faces@,
                model_matrix_spec(self.position, *trig),
                view_matrix_spec(eye, lookat, world_up()),
                render_projection_spec(old(buffer).width as int, old(buffer).height as int),
                eye,
                old(buffer).width as int,
                old(buffer).height as int,
                old(buffer).data@,
                old(buffer).z_buffer@,
            ),
    {
        let ghost width = buffer.width as int;
        let ghost height = buffer.height as int;
        let ghost d0 = buffer.data@;
        let ghost z0 = buffer.z_buffer@;

        let m_rot_x = rotation_x(trig.cos_x, trig.sin_x);
        let m_rot_y = rotation_y(trig.cos_y, trig.sin_y);
        let m_rot_z = rotation_z(trig.cos_z, trig.sin_z);
        let m_trans = translation(self.position.x, self.position.y, self.position.z);
        proof {
            lemma_mat4_mul_bounded(m_trans, m_rot_z, 0x1000000, 0x10000, 0x4000000);
        }
        let m_tz = m_trans.mul(&m_rot_z);
        proof {
            lemma_mat4_mul_bounded(m_tz, m_rot_y, 0x4000000, 0x10000, 0x10000000);
        }
        let m_tzy = m_tz.mul(&m_rot_y);
        proof {
            lemma_mat4_mul_bounded(m_tzy, m_rot_x, 0x10000000, 0x10000, 0x40000000);
        }
        let model = m_tzy.mul(&m_rot_x);
        proof {
            assert(model == model_matrix_spec(self.position, *trig));
        }

        let view = build_view_matrix(eye, lookat, Vector3 { x: 0, y: FX_ONE, z: 0 });
        proof {
            assert(view == view_matrix_spec(eye, lookat, world_up()));
        }

        let w_fx: i64 = (buffer.width as i64) * FX_ONE;
        let h_fx: i64 = (buffer.height as i64) * FX_ONE;
        proof {
            lemma_ge_one_mul(i64::MAX as int, h_fx as int);
            lemma_sdiv_le(w_fx as int * FX_ONE as int, h_fx as int);
        }
        let aspect = fx_div(w_fx, h_fx);
        proof {
            lemma_aspect_range(buffer.width as int, buffer.height as int);
            assert(aspect as int == aspect_spec(width, height));
        }
        proof {
            assert(fx_mul_spec(NEAR_PLANE as int, TAN_HALF_FOV as int) == 5307);
            assert(fx_div_spec(5307, aspect as int) == tdiv(347799552, aspect as int));
            crate::fx::lemma_tdiv_ge_one(347799552, aspect as int);
        }
        let projection = build_perspective_matrix(NEAR_PLANE, FAR_PLANE, TAN_HALF_FOV, aspect);
        proof {
            assert(projection == render_projection_spec(width, height));
        }

        let ghost model_s = model_matrix_spec(self.position, *trig);
        let ghost view_s = view_matrix_spec(eye, lookat, world_up());
        let ghost proj_s = render_projection_spec(width, height);

        let n = self.faces.len();
        let mut k: usize = 0;
        while k < n
            invariant
                buffer.wf(),
                buffer.width as int == width,
                buffer.height as int == height,
                buffer.bpp == old(buffer).bpp,
                1 <= width <= 4096,
                1 <= height <= 4096,
                n == self.faces@.len(),
                k <= n,
                model == model_s,
                view == view_s,
                projection == proj_s,
                transformable(model_s),
                transformable(view_s),
                transformable(proj_s),
                vec3_bounded(eye, 0x1000000),
                forall|i: int|
                    0 <= i < self.faces@.len() ==> face_model_in_range(#[trigger] self.faces@[i]),
                (buffer.data@, buffer.z_buffer@) == spec_render_mesh(
                    self.faces@.subrange(0, k as int),
                    model_s,
                    view_s,
                    proj_s,
                    eye,
                    width,
                    height,
                    d0,
                    z0,
                ),
            decreases n - k,
        {
            let face = &self.faces[k];
            let ghost pre = self.faces@.subrange(0, k as int);
            let ghost post = self.faces@.subrange(0, k as int + 1);
            render_face(face, model, view, projection, eye, buffer);
            proof {
                assert(post.drop_last() =~= pre);
                assert(post.last() == self.faces@[k as int]);
            }
            k = k + 1;
        }
        proof {
            assert(self.faces@.subrange(0, n as int) =~= self.faces@);
        }
    }
}

/// The fixed-point aspect ratio of a buffer with both extents between
/// 1 and 4096 pixels lies between one sixteenth of one and 4096.
proof fn lemma_aspect_range(width: int, height: int)
    requires
        1 <= width <= 4096,
        1 <= height <= 4096,
    ensures
        1 <= aspect_spec(width, height) <= 0x10000000,
{
    let s = FX_ONE as int;
    let wf = width * s;
    let hf = height * s;
    assert(wf * s >= hf) by (nonlinear_arith)
        requires
            wf == width * s,
            hf == height * s,
            1 <= width,
            height <= 4096,
            s == 65536,
    ;
    assert(hf >= 1 && wf >= 1) by (nonlinear_arith)
        requires
            wf == width * s,
            hf == height * s,
            1 <= width,
            1 <= height,
            s == 65536,
    ;
    vstd::arithmetic::div_mod::lemma_div_is_ordered(hf, wf * s, hf);
    vstd::arithmetic::div_mod::lemma_div_by_self(hf);
    assert(aspect_spec(width, height) == tdiv(wf * s, hf));
    assert(tdiv(wf * s, hf) >= 1);
    assert(0x10000000 * hf >= wf * s) by (nonlinear_arith)
        requires
            wf == width * s,
            hf == height * s,
            width <= 4096,
            1 <= height,
            s == 65536,
    ;
    crate::fx::lemma_tdiv_bound(wf * s, hf, 0x10000000);
}

} // verus!
