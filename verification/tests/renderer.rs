//! Tests for the rasterizer core: barycentric coordinates, the
//! depth-tested buffer, line drawing, the legacy matrix type and the
//! whole transform pipeline.

use renderer::display::{Color, DisplayBuffer};
use renderer::fx::FX_ONE;
use renderer::matrix::{build_perspective_matrix, Vector4};
use renderer::mesh::{EulerTrig, Face, Mesh, Renderable, Vertex};
use renderer::rasterization::{draw_line, get_barycentric, LineSegment};
use renderer::vector::{Matrix, Vector2, Vector3};

fn v2(x: i64, y: i64) -> Vector2 {
    Vector2 { x, y }
}

#[test]
fn test_get_barycentric_ccw_inside() {
    // The unit triangle A = (1, 0), B = (0, 1), C = (-1, 0) and the
    // interior point P = (0, 0.5), written at twice the scale so that
    // every coordinate is a whole number.
    let a = v2(2, 0);
    let b = v2(0, 2);
    let c = v2(-2, 0);
    let p = v2(0, 1);

    let w = get_barycentric(a, b, c, p);

    assert!(w.u_num > 0);
    assert!(w.v_num > 0);
    assert!(w.w_num > 0);
    assert!(w.u_num < w.denom);
    assert!(w.v_num < w.denom);
    assert!(w.w_num < w.denom);
}

#[test]
fn test_get_barycentric_cw_inside() {
    let a = v2(-2, 0);
    let b = v2(0, 2);
    let c = v2(2, 0);
    let p = v2(0, 1);

    let w = get_barycentric(a, b, c, p);

    assert!(w.u_num > 0);
    assert!(w.v_num > 0);
    assert!(w.w_num > 0);
    assert!(w.u_num < w.denom);
    assert!(w.v_num < w.denom);
    assert!(w.w_num < w.denom);
}

#[test]
fn test_matrix_new() {
    // Arrange
    let m1 = Matrix::identity(3);

    // Assert
    assert_eq!(m1.data[0], FX_ONE);
    assert_eq!(m1.data[1], 0);
    assert_eq!(m1.data[2], 0);

    assert_eq!(m1.data[3], 0);
    assert_eq!(m1.data[4], FX_ONE);
    assert_eq!(m1.data[5], 0);

    assert_eq!(m1.data[6], 0);
    assert_eq!(m1.data[7], 0);
    assert_eq!(m1.data[8], FX_ONE);
}

#[test]
fn test_matrix_mult_by_scalar() {
    // Arrange
    let m1 = Matrix::identity(3);

    // Act
    let m2 = m1.mul(3 * FX_ONE);

    // Assert
    assert_eq!(m2.data[0], 3 * FX_ONE);
    assert_eq!(m2.data[1], 0);
    assert_eq!(m2.data[2], 0);

    assert_eq!(m2.data[3], 0);
    assert_eq!(m2.data[4], 3 * FX_ONE);
    assert_eq!(m2.data[5], 0);

    assert_eq!(m2.data[6], 0);
    assert_eq!(m2.data[7], 0);
    assert_eq!(m2.data[8], 3 * FX_ONE);
}

#[test]
fn barycentric_partition_of_unity() {
    let a = v2(3, 7);
    let b = v2(-5, 2);
    let c = v2(11, -4);
    let p = v2(1, 1);

    let w = get_barycentric(a, b, c, p);

    assert!(w.denom > 0);
    assert_eq!(w.u_num + w.v_num + w.w_num, w.denom);
}

#[test]
fn barycentric_reconstructs_point() {
    let a = v2(3, 7);
    let b = v2(-5, 2);
    let c = v2(11, -4);
    let p = v2(1, 1);

    let w = get_barycentric(a, b, c, p);

    assert_eq!(w.u_num * a.x + w.v_num * b.x + w.w_num * c.x, w.denom * p.x);
    assert_eq!(w.u_num * a.y + w.v_num * b.y + w.w_num * c.y, w.denom * p.y);
}

#[test]
fn barycentric_degenerate_triangle_has_zero_denominator() {
    // All three corners on one line: zero area.
    let a = v2(0, 0);
    let b = v2(2, 2);
    let c = v2(4, 4);
    let p = v2(1, 1);

    let w = get_barycentric(a, b, c, p);

    assert_eq!(w.denom, 0);
}

#[test]
fn color_packs_to_little_endian_word() {
    let c = Color { r: 0x11, g: 0x22, b: 0x33, a: 0x44 };
    assert_eq!(c.to_u32(), 0x4433_2211);

    let white = Color { r: 255, g: 255, b: 255, a: 255 };
    assert_eq!(white.to_u32(), 0xffff_ffff);
}

#[test]
fn display_buffer_dimensions() {
    let db = DisplayBuffer::new(8, 4, 4);
    assert_eq!(db.size(), 8 * 4 * 4);
    assert_eq!(db.num_pixels(), 32);
    assert_eq!(db.width, 8);
    assert_eq!(db.height, 4);
    assert!(db.data.iter().all(|&b| b == 0));
    assert!(db.z_buffer.iter().all(|&z| z == i64::MIN));
}

#[test]
fn depth_test_closer_wins_and_only_if_strictly_closer() {
    let mut db = DisplayBuffer::new(4, 4, 4);
    let red = Color { r: 255, g: 0, b: 0, a: 255 };
    let green = Color { r: 0, g: 255, b: 0, a: 255 };
    let blue = Color { r: 0, g: 0, b: 255, a: 255 };

    // y = 1 on a height-4 buffer lands in row 2 of the stored image.
    let index: usize = (4 - 1 - 1) * 4 + 2;

    db.set_pixel(2, 1, -5, red);
    assert_eq!(db.data[index * 4], 255);
    assert_eq!(db.z_buffer[index], -5);

    // Farther: dropped.
    db.set_pixel(2, 1, -7, green);
    assert_eq!(db.data[index * 4], 255);
    assert_eq!(db.data[index * 4 + 1], 0);
    assert_eq!(db.z_buffer[index], -5);

    // Equal depth: dropped too, only strictly closer wins.
    db.set_pixel(2, 1, -5, green);
    assert_eq!(db.data[index * 4 + 1], 0);

    // Closer: written.
    db.set_pixel(2, 1, 3, blue);
    assert_eq!(db.data[index * 4 + 2], 255);
    assert_eq!(db.z_buffer[index], 3);
}

#[test]
fn clear_resets_pixels_and_depth() {
    let mut db = DisplayBuffer::new(4, 4, 4);
    db.set_pixel(0, 0, 9, Color { r: 1, g: 2, b: 3, a: 4 });
    db.clear();
    assert!(db.data.iter().all(|&b| b == 0));
    assert!(db.z_buffer.iter().all(|&z| z == i64::MIN));
}

fn raster_vertex(x: i64, y: i64, z: i64, color: Color) -> Vertex<Vector3> {
    Vertex { color, position: Vector3 { x, y, z }, normal: Vector3 { x: 0, y: 0, z: FX_ONE } }
}

#[test]
fn triangle_fill_covers_interior_pixel() {
    let mut db = DisplayBuffer::new(16, 16, 4);
    let red = Color { r: 255, g: 0, b: 0, a: 255 };
    let tri = Face {
        v0: raster_vertex(1, 1, 10, red),
        v1: raster_vertex(9, 1, 10, red),
        v2: raster_vertex(1, 9, 10, red),
    };

    tri.render(&mut db);

    // The corner pixel (1, 1) is inside; flipped row index for y = 1.
    let index: usize = (16 - 1 - 1) * 16 + 1;
    assert_eq!(db.data[index * 4], 255);
    assert_eq!(db.data[index * 4 + 3], 255);
    assert_eq!(db.z_buffer[index], 10);

    // A pixel outside the triangle stays black.
    let outside: usize = (16 - 8 - 1) * 16 + 8;
    assert_eq!(db.data[outside * 4], 0);
    assert_eq!(db.z_buffer[outside], i64::MIN);
}

#[test]
fn triangle_fill_interpolates_color() {
    let mut db = DisplayBuffer::new(16, 16, 4);
    let red = Color { r: 200, g: 0, b: 0, a: 255 };
    let green = Color { r: 0, g: 200, b: 0, a: 255 };
    let tri = Face {
        v0: raster_vertex(0, 0, 10, red),
        v1: raster_vertex(8, 0, 10, green),
        v2: raster_vertex(0, 8, 10, red),
    };

    tri.render(&mut db);

    // Halfway along the bottom edge the two edge colors mix evenly.
    let index: usize = (16 - 0 - 1) * 16 + 4;
    assert_eq!(db.data[index * 4], 100);
    assert_eq!(db.data[index * 4 + 1], 100);
    assert_eq!(db.data[index * 4 + 3], 255);
}

#[test]
fn out_of_bounds_triangle_is_dropped_whole() {
    let mut db = DisplayBuffer::new(8, 8, 4);
    let red = Color { r: 255, g: 0, b: 0, a: 255 };
    // One raster coordinate reaches the buffer width: dropped, not
    // clipped, even though most of the triangle is inside.
    let tri = Face {
        v0: raster_vertex(1, 1, 10, red),
        v1: raster_vertex(8, 1, 10, red),
        v2: raster_vertex(1, 6, 10, red),
    };

    tri.render(&mut db);

    assert!(db.data.iter().all(|&b| b == 0));
    assert!(db.z_buffer.iter().all(|&z| z == i64::MIN));
}

#[test]
fn bresenham_line_sets_start_pixel() {
    let mut db = DisplayBuffer::new(8, 8, 4);
    let white = Color { r: 255, g: 255, b: 255, a: 255 };

    draw_line(&mut db, 0, 1, 6, 4, 0, white);

    // The buffer index of the start coordinate (0, 1), y flipped.
    let start: usize = (8 - 1 - 1) * 8 + 0;
    assert_ne!(db.data[start * 4], 0);
    // The end pixel is plotted too.
    let end: usize = (8 - 4 - 1) * 8 + 6;
    assert_ne!(db.data[end * 4], 0);
}

#[test]
fn line_segment_renders_like_draw_line() {
    let white = Color { r: 255, g: 255, b: 255, a: 255 };
    let mut direct = DisplayBuffer::new(8, 8, 4);
    draw_line(&mut direct, 0, 1, 6, 4, 0, white);

    let mut via_segment = DisplayBuffer::new(8, 8, 4);
    let seg = LineSegment { x0: 0, y0: 1, x1: 6, y1: 4, z: 0, color: white };
    seg.render(&mut via_segment);

    assert_eq!(direct.data, via_segment.data);
    assert_eq!(direct.z_buffer, via_segment.z_buffer);
}

#[test]
fn projection_round_trip_on_view_axis() {
    // One unit of near distance, five of far, a 90-degree field of
    // view and a square aspect: every division is exact.
    let n = FX_ONE;
    let f = 5 * FX_ONE;
    let p = build_perspective_matrix(n, f, FX_ONE, FX_ONE);

    let near = p.mul_vec(Vector4 { x: 0, y: 0, z: -n, w: FX_ONE });
    assert_eq!(near.x, 0);
    assert_eq!(near.y, 0);
    assert_eq!(near.w, n);
    // Dividing z by w lands exactly on the near NDC plane, -1.
    assert_eq!((near.z as i128 * FX_ONE as i128) / (near.w as i128), -(FX_ONE as i128));

    let far = p.mul_vec(Vector4 { x: 0, y: 0, z: -f, w: FX_ONE });
    assert_eq!(far.x, 0);
    assert_eq!(far.y, 0);
    assert_eq!(far.w, f);
    assert_eq!((far.z as i128 * FX_ONE as i128) / (far.w as i128), FX_ONE as i128);
}

fn unit_triangle_mesh() -> Mesh {
    let red = Color { r: 255, g: 0, b: 0, a: 255 };
    let green = Color { r: 0, g: 255, b: 0, a: 255 };
    let blue = Color { r: 0, g: 0, b: 255, a: 255 };
    let mut mesh = Mesh::new();
    mesh.faces.push(Face {
        v0: Vertex {
            position: Vector4 { x: 0, y: FX_ONE, z: -2 * FX_ONE, w: FX_ONE },
            color: red,
            normal: Vector3 { x: 0, y: 0, z: FX_ONE },
        },
        v1: Vertex {
            position: Vector4 { x: -FX_ONE, y: 0, z: -2 * FX_ONE, w: FX_ONE },
            color: green,
            normal: Vector3 { x: 0, y: 0, z: FX_ONE },
        },
        v2: Vertex {
            position: Vector4 { x: FX_ONE, y: 0, z: -2 * FX_ONE, w: FX_ONE },
            color: blue,
            normal: Vector3 { x: 0, y: 0, z: FX_ONE },
        },
    });
    mesh
}

fn identity_trig() -> EulerTrig {
    EulerTrig { cos_x: FX_ONE, sin_x: 0, cos_y: FX_ONE, sin_y: 0, cos_z: FX_ONE, sin_z: 0 }
}

#[test]
fn render_draws_triangle_in_front_of_camera() {
    let mesh = unit_triangle_mesh();
    let mut db = DisplayBuffer::new(64, 64, 4);
    let eye = Vector3 { x: 0, y: 0, z: 0 };
    let lookat = Vector3 { x: 0, y: 0, z: -FX_ONE };

    mesh.render(eye, lookat, &identity_trig(), &mut db);

    assert!(db.data.iter().any(|&b| b != 0));
}

#[test]
fn mesh_translation_equals_opposite_camera_shift() {
    // Translating the mesh by (1, 2, 3) and rendering must shift every
    // raster pixel exactly as rendering the untranslated mesh with the
    // whole camera (eye and focus point) moved by (-1, -2, -3).
    let t = Vector3 { x: FX_ONE, y: 2 * FX_ONE, z: 3 * FX_ONE };

    let mut translated = unit_triangle_mesh();
    translated.translate(t);
    let mut buf_a = DisplayBuffer::new(64, 64, 4);
    let eye_a = Vector3 { x: 0, y: 0, z: 0 };
    let lookat_a = Vector3 { x: 0, y: 0, z: -FX_ONE };
    translated.render(eye_a, lookat_a, &identity_trig(), &mut buf_a);

    let plain = unit_triangle_mesh();
    let mut buf_b = DisplayBuffer::new(64, 64, 4);
    let eye_b = Vector3 { x: -t.x, y: -t.y, z: -t.z };
    let lookat_b = Vector3 { x: -t.x, y: -t.y, z: -t.z - FX_ONE };
    plain.render(eye_b, lookat_b, &identity_trig(), &mut buf_b);

    assert_eq!(buf_a.data, buf_b.data);
    assert_eq!(buf_a.z_buffer, buf_b.z_buffer);
}

#[test]
fn translate_accumulates_into_position() {
    let mut mesh = Mesh::new();
    mesh.translate(Vector3 { x: FX_ONE, y: 0, z: -2 * FX_ONE });
    assert_eq!(mesh.position.x, FX_ONE);
    assert_eq!(mesh.position.y, 0);
    assert_eq!(mesh.position.z, -2 * FX_ONE);
    assert_eq!(mesh.position.w, FX_ONE);

    mesh.translate(Vector3 { x: FX_ONE, y: FX_ONE, z: FX_ONE });
    assert_eq!(mesh.position.x, 2 * FX_ONE);
    assert_eq!(mesh.position.y, FX_ONE);
    assert_eq!(mesh.position.z, -FX_ONE);
}

#[test]
fn rotate_accumulates_angles_additively() {
    let mut mesh = Mesh::new();
    mesh.rotate(Vector3 { x: 100, y: -50, z: 7 });
    mesh.rotate(Vector3 { x: 100, y: -50, z: 7 });
    assert_eq!(mesh.angle.x, 200);
    assert_eq!(mesh.angle.y, -100);
    assert_eq!(mesh.angle.z, 14);
}

#[test]
fn vector2_sub_is_componentwise() {
    let a = Vector2 { x: 10, y: 3 };
    let b = Vector2 { x: 4, y: 5 };
    let d = a.sub(b);
    assert_eq!(d.x, 6);
    assert_eq!(d.y, -2);
}

#[test]
fn back_facing_face_is_culled() {
    // The triangle's normals point away from the camera: every vertex
    // is unlit, so the face is skipped and the buffer stays empty.
    let mut mesh = unit_triangle_mesh();
    let away = Vector3 { x: 0, y: 0, z: -FX_ONE };
    mesh.faces[0].v0.normal = away;
    mesh.faces[0].v1.normal = away;
    mesh.faces[0].v2.normal = away;
    let mut db = DisplayBuffer::new(64, 64, 4);
    let eye = Vector3 { x: 0, y: 0, z: 0 };
    let lookat = Vector3 { x: 0, y: 0, z: -FX_ONE };

    mesh.render(eye, lookat, &identity_trig(), &mut db);

    assert!(db.data.iter().all(|&b| b == 0));
}

#[test]
fn empty_mesh_renders_empty_buffer() {
    let mesh = Mesh::new();
    let mut db = DisplayBuffer::new(32, 32, 4);
    let eye = Vector3 { x: 0, y: 0, z: 0 };
    let lookat = Vector3 { x: 0, y: 0, z: -FX_ONE };

    mesh.render(eye, lookat, &identity_trig(), &mut db);

    assert!(db.data.iter().all(|&b| b == 0));
    assert!(db.z_buffer.iter().all(|&z| z == i64::MIN));
}
