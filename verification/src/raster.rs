//! Raster geometry: the size of a scaled frame and the repacking of padded
//! rows.
//!
//! A decoded plane keeps each pixel row in `stride` bytes, of which only the
//! first `3 * width` are pixels. The compositor wants the rows back to back,
//! so the padding is cut out before a frame is passed on.

use vstd::arithmetic::div_mod::{
    lemma_div_pos_is_pos, lemma_fundamental_div_mod, lemma_mod_pos_bound,
};
use vstd::prelude::*;
use vstd::slice::slice_subrange;

verus! {

/// Bytes that one RGB pixel takes.
pub const BYTES_PER_PIXEL: usize = 3;

/// A character cell is `CELL_ASPECT_NUM / CELL_ASPECT_DEN` times as tall as
/// it is wide: this is the numerator.
pub const CELL_ASPECT_NUM: u32 = 23;

/// Denominator of the shape of a character cell.
pub const CELL_ASPECT_DEN: u32 = 10;

/// Pixel rows that a display of `display_height` text rows is scaled to.
pub open spec fn real_height(display_height: int) -> int {
    display_height * (CELL_ASPECT_NUM as int) / (CELL_ASPECT_DEN as int)
}

/// Bytes of a packed RGB frame of `width` by `height` pixels.
pub open spec fn frame_bytes(width: int, height: int) -> int {
    width * height * BYTES_PER_PIXEL
}

/// The geometry exists when the pixel height and the frame size both fit in
/// 32 bits.
pub open spec fn geometry_fits(width: int, display_height: int) -> bool {
    &&& real_height(display_height) <= u32::MAX
    &&& frame_bytes(width, real_height(display_height)) <= u32::MAX
}

/// Size of the frames that a display of a given size is fed with.
#[derive(Clone, Copy, Debug, PartialEq, Eq, Structural)]
pub struct FrameGeometry {
    /// Pixels in a row, one per text column.
    pub width: usize,
    /// Pixel rows, corrected for the shape of a character cell.
    pub height: usize,
    /// Bytes of one frame.
    pub frame_size: usize,
}

impl FrameGeometry {
    /// A frame takes three bytes for each of its pixels.
    pub open spec fn wf(&self) -> bool {
        self.frame_size == frame_bytes(self.width as int, self.height as int)
    }

    /// Works out the frame geometry for a display of `width` columns and
    /// `display_height` text rows.
    pub fn new(width: u32, display_height: u32) -> (geometry: Option<FrameGeometry>)
        ensures
            geometry.is_some() <==> geometry_fits(width as int, display_height as int),
            geometry matches Some(g) ==> {
                &&& g.wf()
                &&& g.width == width
                &&& g.height == real_height(display_height as int)
            },
    {
        let tall: u64 = display_height as u64 * CELL_ASPECT_NUM as u64 / CELL_ASPECT_DEN as u64;
        if tall > u32::MAX as u64 {
            return None;
        }
        assert(width as u64 * tall <= 0xffff_ffff * 0xffff_ffff) by (nonlinear_arith)
            requires
                0 <= width <= 0xffff_ffff,
                0 <= tall <= 0xffff_ffff,
        ;
        let pixels: u64 = width as u64 * tall;
        match pixels.checked_mul(BYTES_PER_PIXEL as u64) {
            None => None,
            Some(bytes) => {
                if bytes > u32::MAX as u64 {
                    None
                } else {
                    Some(
                        FrameGeometry {
                            width: width as usize,
                            height: tall as usize,
                            frame_size: bytes as usize,
                        },
                    )
                }
            },
        }
    }

    /// Text rows that a frame of this geometry composes to.
    pub fn text_rows(&self) -> (rows: usize)
        ensures
            rows == self.height / 2,
    {
        self.height / 2
    }
}

/// Byte `k` of row `y` of a plane.
pub open spec fn plane_byte(plane: Seq<u8>, stride: int, y: int, k: int) -> u8 {
    plane[y * stride + k]
}

/// The pixel bytes of row `y` of a plane.
pub open spec fn row_bytes(plane: Seq<u8>, width: int, stride: int, y: int) -> Seq<u8> {
    plane.subrange(y * stride, y * stride + width * BYTES_PER_PIXEL)
}

/// The first `height` rows of a plane, back to back, without their padding.
pub open spec fn packed_rows(plane: Seq<u8>, width: int, height: int, stride: int) -> Seq<u8>
    decreases height,
{
    if height <= 0 {
        Seq::empty()
    } else {
        packed_rows(plane, width, height - 1, stride) + row_bytes(plane, width, stride, height - 1)
    }
}

/// All `height` rows lie inside a plane of `len` bytes.
pub open spec fn rows_fit(len: nat, width: int, height: int, stride: int) -> bool {
    height == 0 || (height - 1) * stride + width * BYTES_PER_PIXEL <= len
}

/// If the last row lies inside the plane, so does every row before it.
pub proof fn lemma_row_fits(len: nat, width: int, height: int, stride: int, y: int)
    by (nonlinear_arith)
    requires
        0 <= width,
        0 <= stride,
        0 <= y < height,
        rows_fit(len, width, height, stride),
    ensures
        0 <= y * stride,
        y * stride + width * BYTES_PER_PIXEL <= len,
        y * stride <= (height - 1) * stride,
{
}

/// Repacked rows take three bytes a pixel, whatever the stride was.
pub proof fn lemma_packed_rows_len(plane: Seq<u8>, width: int, height: int, stride: int)
    requires
        0 <= width,
        0 <= stride,
        0 <= height,
        rows_fit(plane.len(), width, height, stride),
    ensures
        packed_rows(plane, width, height, stride).len() == frame_bytes(width, height),
    decreases height,
{
    if height > 0 {
        if height > 1 {
            lemma_row_fits(plane.len(), width, height, stride, height - 2);
        }
        lemma_packed_rows_len(plane, width, height - 1, stride);
        lemma_row_fits(plane.len(), width, height, stride, height - 1);
        assert(width * (height - 1) * 3 + width * 3 == width * height * 3) by (nonlinear_arith);
    } else {
        assert(width * height * 3 == 0) by (nonlinear_arith)
            requires
                height == 0,
        ;
    }
}

/// Byte `k` of row `y` keeps its value and moves from `y * stride + k` to
/// `y * (3 * width) + k`.
pub proof fn lemma_packed_byte(
    plane: Seq<u8>,
    width: int,
    height: int,
    stride: int,
    y: int,
    k: int,
)
    requires
        0 <= width,
        0 <= stride,
        0 <= y < height,
        0 <= k < width * BYTES_PER_PIXEL,
        rows_fit(plane.len(), width, height, stride),
    ensures
        packed_rows(plane, width, height, stride)[y * (width * BYTES_PER_PIXEL) + k]
            == plane_byte(plane, stride, y, k),
    decreases height,
{
    if height > 1 {
        lemma_row_fits(plane.len(), width, height, stride, height - 2);
    }
    lemma_packed_rows_len(plane, width, height - 1, stride);
    lemma_row_fits(plane.len(), width, height, stride, height - 1);
    let earlier = packed_rows(plane, width, height - 1, stride);
    assert(earlier.len() == (height - 1) * (width * 3)) by (nonlinear_arith)
        requires
            earlier.len() == width * (height - 1) * 3,
    ;
    if y == height - 1 {
        assert(row_bytes(plane, width, stride, y)[k] == plane[y * stride + k]);
    } else {
        lemma_packed_byte(plane, width, height - 1, stride, y, k);
        assert(y * (width * 3) + k < (height - 1) * (width * 3)) by (nonlinear_arith)
            requires
                0 <= y < height - 1,
                0 <= k < width * 3,
        ;
    }
}

/// A plane without padding is left as it is.
pub proof fn lemma_unpadded_plane_is_kept(plane: Seq<u8>, width: int, height: int)
    requires
        0 <= width,
        0 <= height,
        plane.len() == frame_bytes(width, height),
    ensures
        packed_rows(plane, width, height, width * BYTES_PER_PIXEL) == plane,
{
    let stride = width * 3;
    assert(plane.len() == stride * height) by (nonlinear_arith)
        requires
            plane.len() == width * height * 3,
            stride == width * 3,
    ;
    assert(rows_fit(plane.len(), width, height, stride)) by (nonlinear_arith)
        requires
            plane.len() == stride * height,
            stride == width * 3,
            0 <= height,
    ;
    lemma_packed_rows_len(plane, width, height, stride);
    let packed = packed_rows(plane, width, height, stride);
    assert forall|i: int| 0 <= i < packed.len() implies packed[i] == plane[i] by {
        assert(stride > 0) by (nonlinear_arith)
            requires
                0 <= i < stride * height,
                0 <= stride,
        ;
        let y = i / stride;
        let k = i % stride;
        lemma_fundamental_div_mod(i, stride);
        lemma_mod_pos_bound(i, stride);
        lemma_div_pos_is_pos(i, stride);
        assert(y < height) by (nonlinear_arith)
            requires
                i == stride * y + k,
                0 <= k,
                i < stride * height,
                0 < stride,
        ;
        lemma_packed_byte(plane, width, height, stride, y, k);
        assert(y * stride + k == i) by (nonlinear_arith)
            requires
                i == stride * y + k,
        ;
    }
    assert(packed =~= plane);
}

/// Padding is discarded: two planes that agree on the pixel bytes of every
/// row repack to the same frame, whatever their padding holds.
pub proof fn lemma_padding_is_discarded(
    a: Seq<u8>,
    b: Seq<u8>,
    width: int,
    height: int,
    stride: int,
)
    requires
        0 <= width,
        0 <= stride,
        0 <= height,
        rows_fit(a.len(), width, height, stride),
        rows_fit(b.len(), width, height, stride),
        forall|y: int, k: int|
            0 <= y < height && 0 <= k < width * BYTES_PER_PIXEL ==> plane_byte(a, stride, y, k)
                == plane_byte(b, stride, y, k),
    ensures
        packed_rows(a, width, height, stride) == packed_rows(b, width, height, stride),
    decreases height,
{
    if height > 0 {
        if height > 1 {
            lemma_row_fits(a.len(), width, height, stride, height - 2);
            lemma_row_fits(b.len(), width, height, stride, height - 2);
        }
        lemma_padding_is_discarded(a, b, width, height - 1, stride);
        lemma_row_fits(a.len(), width, height, stride, height - 1);
        lemma_row_fits(b.len(), width, height, stride, height - 1);
        let last_a = row_bytes(a, width, stride, height - 1);
        let last_b = row_bytes(b, width, stride, height - 1);
        assert forall|k: int| 0 <= k < last_a.len() implies last_a[k] == last_b[k] by {
            assert(plane_byte(a, stride, height - 1, k) == plane_byte(b, stride, height - 1, k));
        }
        assert(last_a =~= last_b);
    }
}

/// Cuts the row padding out of a plane: of each of the `height` rows, the
/// first `3 * width` bytes are kept and the rest of the stride is dropped.
///
/// There is a result when every row lies inside the plane and the packed
/// frame is no longer than a buffer can be.
pub fn strip_row_padding(plane: &[u8], width: usize, height: usize, stride: usize) -> (packed:
    Option<Vec<u8>>)
    ensures
        packed.is_some() <==> rows_fit(plane@.len(), width as int, height as int, stride as int)
            && frame_bytes(width as int, height as int) <= usize::MAX,
        packed matches Some(bytes) ==> bytes@ == packed_rows(
            plane@,
            width as int,
            height as int,
            stride as int,
        ),
        packed matches Some(bytes) ==> bytes@.len() == frame_bytes(width as int, height as int),
{
    if height == 0 {
        assert(width * height * 3 == 0) by (nonlinear_arith)
            requires
                height == 0,
        ;
        return Some(Vec::new());
    }
    assert(0 <= (height - 1) * stride) by (nonlinear_arith)
        requires
            1 <= height,
            0 <= stride,
    ;
    assert(plane@.len() == plane.len());
    let row_len: usize = match width.checked_mul(BYTES_PER_PIXEL) {
        Some(n) => n,
        None => {
            return None;
        },
    };
    let last_start: usize = match (height - 1).checked_mul(stride) {
        Some(n) => n,
        None => {
            return None;
        },
    };
    let end: usize = match last_start.checked_add(row_len) {
        Some(n) => n,
        None => {
            return None;
        },
    };
    if end > plane.len() {
        return None;
    }
    let total: usize = match row_len.checked_mul(height) {
        Some(n) => n,
        None => {
            assert(width * height * 3 == (width * 3) * height) by (nonlinear_arith);
            return None;
        },
    };
    assert(width * height * 3 == (width * 3) * height) by (nonlinear_arith);
    let mut packed: Vec<u8> = Vec::with_capacity(total);
    let mut y: usize = 0;
    while y < height
        invariant
            y <= height,
            plane@.len() == plane.len(),
            row_len == width * BYTES_PER_PIXEL,
            rows_fit(plane@.len(), width as int, height as int, stride as int),
            packed@ == packed_rows(plane@, width as int, y as int, stride as int),
        decreases height - y,
    {
        proof {
            lemma_row_fits(plane@.len(), width as int, height as int, stride as int, y as int);
        }
        let start: usize = y * stride;
        packed.extend_from_slice(slice_subrange(plane, start, start + row_len));
        y += 1;
    }
    proof {
        lemma_packed_rows_len(plane@, width as int, height as int, stride as int);
    }
    Some(packed)
}

} // verus!
