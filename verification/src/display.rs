//! Color and the depth-tested display buffer.
//!
//! The buffer stores tightly packed RGBA8 pixels in row-major order,
//! top row first, together with a parallel depth buffer. The public
//! `set_pixel` coordinates put y = 0 at the *bottom* edge; the write
//! path flips y before indexing. A larger stored depth value means
//! "closer": a write lands only if its depth strictly exceeds the
//! stored one, and an empty cell holds `i64::MIN` so that the first
//! write always wins.

use vstd::prelude::*;

verus! {

/// Color in RGBA8888 format.
#[derive(Copy, Clone)]
pub struct Color {
    /// Red component intensity
    pub r: u8,
    /// Green component intensity
    pub g: u8,
    /// Blue component intensity
    pub b: u8,
    /// Alpha value (0 - fully transparent, 255 - fully opaque)
    pub a: u8,
}

impl Color {
    /// Pack the four channels into one little-endian ABGR word.
    pub fn to_u32(&self) -> (packed: u32)
        ensures
            packed == ((self.a as u32) << 24) | ((self.b as u32) << 16)
                | ((self.g as u32) << 8) | (self.r as u32),
    {
        ((self.a as u32) << 24) | ((self.b as u32) << 16) | ((self.g as u32) << 8)
            | (self.r as u32)
    }
}

/// The row-major cell index that the buffer uses for the pixel at
/// (x, y), after flipping y so that y = 0 names the bottom row.
pub open spec fn pixel_index(width: int, height: int, x: int, y: int) -> int {
    (height - y - 1) * width + x
}

/// The depth buffer after a depth-tested write of `z` at cell `i`:
/// updated only if `z` strictly exceeds the stored depth.
pub open spec fn zbuf_after(zbuf: Seq<i64>, i: int, z: i64) -> Seq<i64> {
    if zbuf[i] < z {
        zbuf.update(i, z)
    } else {
        zbuf
    }
}

/// The pixel bytes after a depth-tested write of `c` at cell `i`.
pub open spec fn data_after(data: Seq<u8>, zbuf: Seq<i64>, i: int, z: i64, c: Color) -> Seq<u8> {
    if zbuf[i] < z {
        data.update(4 * i, c.r).update(4 * i + 1, c.g).update(4 * i + 2, c.b).update(
            4 * i + 3,
            c.a,
        )
    } else {
        data
    }
}

/// The depth stored in one cell after a sequence of depth-tested
/// writes, each given as (depth, color), applied left to right.
pub open spec fn cell_z_after(z0: i64, ws: Seq<(i64, Color)>) -> i64
    decreases ws.len(),
{
    if ws.len() == 0 {
        z0
    } else {
        if z0 < ws[0].0 {
            cell_z_after(ws[0].0, ws.drop_first())
        } else {
            cell_z_after(z0, ws.drop_first())
        }
    }
}

/// The color stored in one cell after a sequence of depth-tested
/// writes, applied left to right.
pub open spec fn cell_color_after(z0: i64, c0: Color, ws: Seq<(i64, Color)>) -> Color
    decreases ws.len(),
{
    if ws.len() == 0 {
        c0
    } else {
        if z0 < ws[0].0 {
            cell_color_after(ws[0].0, ws[0].1, ws.drop_first())
        } else {
            cell_color_after(z0, c0, ws.drop_first())
        }
    }
}

/// Write `i` of `ws` wins the cell: it carries the final depth `zf` and
/// final color `cf`, and every write before it carried a strictly
/// smaller depth, so it was the first to reach the stored maximum.
pub open spec fn wins_cell(ws: Seq<(i64, Color)>, i: int, zf: i64, cf: Color) -> bool {
    &&& 0 <= i < ws.len()
    &&& ws[i].0 == zf
    &&& ws[i].1 == cf
    &&& forall|j: int| 0 <= j < i ==> (#[trigger] ws[j]).0 < zf
}

/// Depth test monotonicity. Over any sequence of depth-tested writes to a
/// fixed cell, the stored depth never decreases and ends no smaller than
/// every written depth. If no write ever beat the stored depth, the cell
/// keeps its original color; otherwise the final color is the color of the
/// first write that attains the final (maximal) depth: closer wins, and
/// only if strictly closer than what was stored when the write arrived.
pub proof fn lemma_depth_test_monotonicity(z0: i64, c0: Color, ws: Seq<(i64, Color)>)
    ensures
        z0 <= cell_z_after(z0, ws),
        forall|i: int| 0 <= i < ws.len() ==> (#[trigger] ws[i]).0 <= cell_z_after(z0, ws),
        cell_z_after(z0, ws) == z0 ==> cell_color_after(z0, c0, ws) == c0,
        cell_z_after(z0, ws) != z0 ==> exists|i: int|
            wins_cell(ws, i, cell_z_after(z0, ws), cell_color_after(z0, c0, ws)),
    decreases ws.len(),
{
    if ws.len() == 0 {
    } else {
        let rest = ws.drop_first();
        let zf = cell_z_after(z0, ws);
        let cf = cell_color_after(z0, c0, ws);
        assert(forall|j: int| 0 <= j < rest.len() ==> #[trigger] rest[j] == ws[j + 1]);
        assert(forall|j: int| 1 <= j < ws.len() ==> #[trigger] ws[j] == rest[j - 1]);
        if z0 < ws[0].0 {
            lemma_depth_test_monotonicity(ws[0].0, ws[0].1, rest);
            assert(zf == cell_z_after(ws[0].0, rest));
            assert(cf == cell_color_after(ws[0].0, ws[0].1, rest));
            if zf == ws[0].0 {
                assert(wins_cell(ws, 0, zf, cf));
            } else {
                let i = choose|i: int| wins_cell(rest, i, zf, cf);
                assert forall|j: int| 0 <= j < i + 1 implies (#[trigger] ws[j]).0 < zf by {
                    if j >= 1 {
                        assert(rest[j - 1].0 < zf);
                    }
                }
                assert(wins_cell(ws, i + 1, zf, cf));
            }
        } else {
            lemma_depth_test_monotonicity(z0, c0, rest);
            assert(zf == cell_z_after(z0, rest));
            if zf != z0 {
                let i = choose|i: int| wins_cell(rest, i, zf, cf);
                assert forall|j: int| 0 <= j < i + 1 implies (#[trigger] ws[j]).0 < zf by {
                    if j >= 1 {
                        assert(rest[j - 1].0 < zf);
                    }
                }
                assert(wins_cell(ws, i + 1, zf, cf));
            }
        }
    }
}

/// The color a buffer cell currently shows, read back from its four bytes.
pub open spec fn cell_color_of(data: Seq<u8>, i: int) -> Color {
    Color { r: data[4 * i], g: data[4 * i + 1], b: data[4 * i + 2], a: data[4 * i + 3] }
}

/// Both planes of the buffer after a sequence of depth-tested writes to
/// the single cell `i`, applied left to right, exactly as consecutive
/// `set_pixel` calls at one (x, y) apply them.
pub open spec fn buffer_after_writes(
    data: Seq<u8>,
    zbuf: Seq<i64>,
    i: int,
    ws: Seq<(i64, Color)>,
) -> (Seq<u8>, Seq<i64>)
    decreases ws.len(),
{
    if ws.len() == 0 {
        (data, zbuf)
    } else {
        buffer_after_writes(
            data_after(data, zbuf, i, ws[0].0, ws[0].1),
            zbuf_after(zbuf, i, ws[0].0),
            i,
            ws.drop_first(),
        )
    }
}

/// A sequence of depth-tested writes to one cell touches nothing else, and
/// leaves in that cell exactly the depth and color that the one-cell model
/// `cell_z_after` / `cell_color_after` predicts. Together with
/// `lemma_depth_test_monotonicity` this pins down the buffer contents after
/// any sequence of `set_pixel` calls at a fixed coordinate.
pub proof fn lemma_buffer_after_writes(
    data: Seq<u8>,
    zbuf: Seq<i64>,
    i: int,
    ws: Seq<(i64, Color)>,
)
    requires
        0 <= i,
        i < zbuf.len(),
        4 * i + 3 < data.len(),
    ensures
        buffer_after_writes(data, zbuf, i, ws).0.len() == data.len(),
        buffer_after_writes(data, zbuf, i, ws).1.len() == zbuf.len(),
        buffer_after_writes(data, zbuf, i, ws).1[i] == cell_z_after(zbuf[i], ws),
        cell_color_of(buffer_after_writes(data, zbuf, i, ws).0, i) == cell_color_after(
            zbuf[i],
            cell_color_of(data, i),
            ws,
        ),
        forall|j: int|
            0 <= j < zbuf.len() && j != i ==> buffer_after_writes(data, zbuf, i, ws).1[j]
                == zbuf[j],
        forall|j: int|
            0 <= j < data.len() && !(4 * i <= j <= 4 * i + 3) ==> buffer_after_writes(
                data,
                zbuf,
                i,
                ws,
            ).0[j] == data[j],
    decreases ws.len(),
{
    if ws.len() == 0 {
    } else {
        let d1 = data_after(data, zbuf, i, ws[0].0, ws[0].1);
        let z1 = zbuf_after(zbuf, i, ws[0].0);
        lemma_buffer_after_writes(d1, z1, i, ws.drop_first());
        assert(cell_color_of(d1, i) == (if zbuf[i] < ws[0].0 {
            ws[0].1
        } else {
            cell_color_of(data, i)
        }));
        assert(buffer_after_writes(data, zbuf, i, ws) == buffer_after_writes(
            d1,
            z1,
            i,
            ws.drop_first(),
        ));
        assert forall|j: int|
            0 <= j < zbuf.len() && j != i implies buffer_after_writes(data, zbuf, i, ws).1[j]
            == zbuf[j] by {
            assert(buffer_after_writes(d1, z1, i, ws.drop_first()).1[j] == z1[j]);
            assert(z1[j] == zbuf[j]);
        }
        assert forall|j: int|
            0 <= j < data.len() && !(4 * i <= j <= 4 * i + 3) implies buffer_after_writes(
            data,
            zbuf,
            i,
            ws,
        ).0[j] == data[j] by {
            assert(buffer_after_writes(d1, z1, i, ws.drop_first()).0[j] == d1[j]);
            assert(d1[j] == data[j]);
        }
    }
}

/// Display buffer: a memory area used for rendering a raw image.
pub struct DisplayBuffer {
    /// Width of the display area in pixels
    pub width: usize,
    /// Height of the display area in pixels
    pub height: usize,
    /// Bytes per pixel
    pub bpp: usize,
    /// Contents of the buffer (pixel data)
    pub data: Vec<u8>,
    /// Z/depth buffer
    pub z_buffer: Vec<i64>,
}

/// Build a byte vector of `n` copies of `v`.
fn filled_bytes(n: usize, v: u8) -> (out: Vec<u8>)
    ensures
        out@.len() == n,
        forall|i: int| 0 <= i < n ==> out@[i] == v,
{
    let mut out: Vec<u8> = Vec::new();
    let mut k: usize = 0;
    while k < n
        invariant
            k <= n,
            out@.len() == k,
            forall|i: int| 0 <= i < k ==> out@[i] == v,
        decreases n - k,
    {
        out.push(v);
        k = k + 1;
    }
    out
}

/// Build a depth vector of `n` copies of `v`.
fn filled_depth(n: usize, v: i64) -> (out: Vec<i64>)
    ensures
        out@.len() == n,
        forall|i: int| 0 <= i < n ==> out@[i] == v,
{
    let mut out: Vec<i64> = Vec::new();
    let mut k: usize = 0;
    while k < n
        invariant
            k <= n,
            out@.len() == k,
            forall|i: int| 0 <= i < k ==> out@[i] == v,
        decreases n - k,
    {
        out.push(v);
        k = k + 1;
    }
    out
}

impl DisplayBuffer {
    /// Shape invariant: 4 bytes per pixel, and both planes sized to the
    /// pixel grid.
    pub open spec fn wf(&self) -> bool {
        &&& self.bpp == 4
        &&& self.width * self.height * 4 <= usize::MAX
        &&& self.data@.len() == self.width * self.height * 4
        &&& self.z_buffer@.len() == self.width * self.height
    }

    /// A freshly cleared state: black pixels, every depth cell at the
    /// "infinitely far" sentinel.
    pub open spec fn is_cleared(&self) -> bool {
        &&& forall|i: int| 0 <= i < self.data@.len() ==> self.data@[i] == 0
        &&& forall|i: int| 0 <= i < self.z_buffer@.len() ==> self.z_buffer@[i] == i64::MIN
    }

    /// A cleared buffer for a pixel grid. Only 4-byte RGBA pixels are
    /// supported.
    pub fn new(width: usize, height: usize, bpp: usize) -> (out: DisplayBuffer)
        requires
            bpp == 4,
            width * height * 4 <= usize::MAX,
        ensures
            out.wf(),
            out.width == width,
            out.height == height,
            out.bpp == bpp,
            out.is_cleared(),
    {
        let pixels: usize = width * height;
        DisplayBuffer {
            width,
            height,
            bpp,
            data: filled_bytes(pixels * 4, 0),
            z_buffer: filled_depth(pixels, i64::MIN),
        }
    }

    /// The size of the buffer in bytes.
    pub fn size(&self) -> (n: usize)
        requires
            self.wf(),
        ensures
            n == self.height * self.width * self.bpp,
    {
        proof {
            vstd::arithmetic::mul::lemma_mul_is_commutative(
                self.height as int,
                self.width as int,
            );
            assert(self.width * self.height <= self.width * self.height * 4);
        }
        self.height * self.width * self.bpp
    }

    /// The number of pixels.
    pub fn num_pixels(&self) -> (n: usize)
        requires
            self.wf(),
        ensures
            n == self.height * self.width,
    {
        proof {
            vstd::arithmetic::mul::lemma_mul_is_commutative(
                self.height as int,
                self.width as int,
            );
            assert(self.width * self.height <= self.width * self.height * 4);
        }
        self.height * self.width
    }

    /// Reset the contents of the buffer so that all pixels are black
    /// and every depth cell is again "infinitely far".
    pub fn clear(&mut self)
        requires
            old(self).wf(),
        ensures
            final(self).wf(),
            final(self).width == old(self).width,
            final(self).height == old(self).height,
            final(self).bpp == old(self).bpp,
            final(self).is_cleared(),
    {
        let pixels: usize = self.width * self.height;
        self.data = filled_bytes(pixels * 4, 0);
        self.z_buffer = filled_depth(pixels, i64::MIN);
    }

    /// Set a single pixel to a desired color, if `z` wins the depth test.
    ///
    /// * `x` - X coordinate in pixels, value 0 corresponds to the left edge
    /// * `y` - Y coordinate in pixels, value 0 corresponds to the bottom edge
    /// * `z` - Depth of the written fragment; larger is closer
    /// * `color` - Color of the pixel
    pub fn set_pixel(&mut self, x: usize, y: usize, z: i64, color: Color)
        requires
            old(self).wf(),
            x < old(self).width,
            y < old(self).height,
        ensures
            final(self).wf(),
            final(self).width == old(self).width,
            final(self).height == old(self).height,
            final(self).bpp == old(self).bpp,
            final(self).z_buffer@ == zbuf_after(
                old(self).z_buffer@,
                pixel_index(old(self).width as int, old(self).height as int, x as int, y as int),
                z,
            ),
            final(self).data@ == data_after(
                old(self).data@,
                old(self).z_buffer@,
                pixel_index(old(self).width as int, old(self).height as int, x as int, y as int),
                z,
                color,
            ),
    {
        proof {
            let w = old(self).width as int;
            let h = old(self).height as int;
            let xi = x as int;
            let yi = y as int;
            assert(0 <= (h - yi - 1) * w && (h - yi - 1) * w + xi < h * w) by (nonlinear_arith)
                requires
                    xi < w,
                    yi < h,
                    0 <= xi,
                    0 <= yi,
            ;
            vstd::arithmetic::mul::lemma_mul_is_commutative(h, w);
            assert(w * h <= w * h * 4);
        }
        let index: usize = (self.height - y - 1) * self.width + x;

        if self.z_buffer[index] < z {
            self.z_buffer[index] = z;
            self.data[index * 4] = color.r;
            self.data[index * 4 + 1] = color.g;
            self.data[index * 4 + 2] = color.b;
            self.data[index * 4 + 3] = color.a;
        }
    }
}

} // verus!
