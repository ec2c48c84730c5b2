//! Glyph compositing: from a packed RGB raster to rows of coloured symbols.
//!
//! Two pixel rows collapse into one text row, because a character cell is
//! about twice as tall as it is wide. For every column the two pixels are
//! averaged per channel, the mean's luminance picks a symbol from the ramp,
//! and the mean, toned down to four fifths, becomes the symbol's colour.
//!
//! Conventions fixed here:
//! * luminance is `(54 R + 183 G + 19 B) / 256`, integer weights that follow
//!   the perceptual 0.2126 / 0.7152 / 0.0722 and sum to 256;
//! * the ramp runs from blank to dense, so brighter pixels get denser symbols;
//! * contrast is a gain in percent around mid-grey, 100 leaving luminance as
//!   it is, and it is carried in hundredths so that nothing is rounded before
//!   the ramp index is taken.

use crate::raster::{lemma_packed_byte, lemma_packed_rows_len, packed_rows, plane_byte, rows_fit};
use ratatui::style::{Color, Style};
use ratatui::text::{Line, Span};
use vstd::prelude::*;

verus! {

/// Number of symbols on the ramp.
pub const RAMP_LEN: usize = 11;

/// Contrast gain, in percent, that leaves luminance unchanged.
pub const CONTRAST_NEUTRAL: u16 = 100;

/// Contrast gain, in percent, that `rgb_to_colored_ascii` applies.
pub const CONTRAST_DEFAULT: u16 = 105;

/// Columns that the batched path handles in one step.
pub const BATCH_WIDTH: usize = 4;

/// A colour with eight bits per channel.
#[derive(Clone, Copy, Debug, PartialEq, Eq, Structural)]
pub struct Rgb {
    pub red: u8,
    pub green: u8,
    pub blue: u8,
}

/// One cell of the character grid: a symbol and its foreground colour.
#[derive(Clone, Copy, Debug, PartialEq, Eq, Structural)]
pub struct Glyph {
    pub symbol: char,
    pub color: Rgb,
}

/// The ramp `"  .:-=+*#%@"`, from blank to dense. An index past the end is
/// held at the densest symbol.
pub open spec fn ramp_symbol(index: int) -> char {
    if index <= 1 {
        ' '
    } else if index == 2 {
        '.'
    } else if index == 3 {
        ':'
    } else if index == 4 {
        '-'
    } else if index == 5 {
        '='
    } else if index == 6 {
        '+'
    } else if index == 7 {
        '*'
    } else if index == 8 {
        '#'
    } else if index == 9 {
        '%'
    } else {
        '@'
    }
}

/// Mean of two channel values, rounded down.
pub open spec fn half_sum(a: u8, b: u8) -> u8 {
    ((a + b) / 2) as u8
}

/// Channel-wise mean of two pixels.
pub open spec fn blend(top: Rgb, bottom: Rgb) -> Rgb {
    Rgb {
        red: half_sum(top.red, bottom.red),
        green: half_sum(top.green, bottom.green),
        blue: half_sum(top.blue, bottom.blue),
    }
}

/// Luminance of a colour, between 0 and 255.
pub open spec fn luminance(c: Rgb) -> int {
    (54 * c.red + 183 * c.green + 19 * c.blue) / 256
}

/// Luminance after the contrast stage, in hundredths: the distance from
/// mid-grey is scaled by `percent / 100` and the result is held within
/// `[0, 255]`.
pub open spec fn contrasted(lum: int, percent: int) -> int {
    let scaled = (lum - 128) * percent + 12800;
    if scaled < 0 {
        0
    } else if scaled > 25500 {
        25500
    } else {
        scaled
    }
}

/// Ramp index for a luminance: `contrasted / 100 / 255 * (RAMP_LEN - 1)`,
/// rounded to the nearest integer.
pub open spec fn ramp_index(lum: int, percent: int) -> int {
    (2 * contrasted(lum, percent) * (RAMP_LEN - 1) + 25500) / 51000
}

/// A channel value toned down to four fifths, rounded down.
pub open spec fn toned_down(channel: u8) -> u8 {
    (channel * 4 / 5) as u8
}

/// The colour in which a symbol is drawn for a mean pixel colour.
pub open spec fn ink(mean: Rgb) -> Rgb {
    Rgb {
        red: toned_down(mean.red),
        green: toned_down(mean.green),
        blue: toned_down(mean.blue),
    }
}

/// The cell that stands for two vertically adjacent pixels.
pub open spec fn glyph_of(top: Rgb, bottom: Rgb, percent: int) -> Glyph {
    let mean = blend(top, bottom);
    Glyph { symbol: ramp_symbol(ramp_index(luminance(mean), percent)), color: ink(mean) }
}

/// A raster of `width` by `height` pixels takes exactly three bytes a pixel.
pub open spec fn is_packed_frame(len: nat, width: int, height: int) -> bool {
    len == width * height * 3
}

/// The pixel in column `x` of pixel row `y`.
pub open spec fn pixel_at(rgb: Seq<u8>, width: int, x: int, y: int) -> Rgb {
    let base = 3 * (y * width + x);
    Rgb { red: rgb[base], green: rgb[base + 1], blue: rgb[base + 2] }
}

/// The cell in column `x` of text row `row`, made of pixel rows `2 * row`
/// and `2 * row + 1`.
pub open spec fn cell_at(rgb: Seq<u8>, width: int, x: int, row: int, percent: int) -> Glyph {
    glyph_of(pixel_at(rgb, width, x, 2 * row), pixel_at(rgb, width, x, 2 * row + 1), percent)
}

/// Text row `row` of a frame, left to right.
pub open spec fn frame_row(rgb: Seq<u8>, width: int, row: int, percent: int) -> Seq<Glyph> {
    Seq::new(width as nat, |x: int| cell_at(rgb, width, x, row, percent))
}

/// All text rows of a frame, top to bottom: one for every full pair of pixel
/// rows.
pub open spec fn frame_rows(rgb: Seq<u8>, width: int, height: int, percent: int) -> Seq<
    Seq<Glyph>,
> {
    Seq::new((height / 2) as nat, |row: int| frame_row(rgb, width, row, percent))
}

/// `count` consecutive cells of a text row, from column `start` on.
pub open spec fn cell_run(
    rgb: Seq<u8>,
    width: int,
    row: int,
    percent: int,
    start: int,
    count: nat,
) -> Seq<Glyph> {
    Seq::new(count, |i: int| cell_at(rgb, width, start + i, row, percent))
}

/// The first `n` full batches of a text row, one after the other.
pub open spec fn leading_batches(rgb: Seq<u8>, width: int, row: int, percent: int, n: nat) -> Seq<
    Glyph,
>
    decreases n,
{
    if n == 0 {
        Seq::empty()
    } else {
        leading_batches(rgb, width, row, percent, (n - 1) as nat) + cell_run(
            rgb,
            width,
            row,
            percent,
            BATCH_WIDTH * (n - 1),
            BATCH_WIDTH as nat,
        )
    }
}

/// A text row as the batched path puts it together: every full batch of
/// `BATCH_WIDTH` columns, then the columns that are left over.
pub open spec fn batched_row(rgb: Seq<u8>, width: int, row: int, percent: int) -> Seq<Glyph> {
    let full = width / (BATCH_WIDTH as int);
    leading_batches(rgb, width, row, percent, full as nat) + cell_run(
        rgb,
        width,
        row,
        percent,
        BATCH_WIDTH * full,
        (width - BATCH_WIDTH * full) as nat,
    )
}

/// `rows` holds exactly the text rows `expected`, in order.
pub open spec fn rows_match(rows: Seq<Vec<Glyph>>, expected: Seq<Seq<Glyph>>) -> bool {
    &&& rows.len() == expected.len()
    &&& forall|r: int| 0 <= r < rows.len() ==> (#[trigger] rows[r])@ == expected[r]
}

/// Every pixel of a packed frame lies inside its bytes.
pub proof fn lemma_pixel_in_frame(width: int, height: int, x: int, y: int)
    by (nonlinear_arith)
    requires
        0 <= x < width,
        0 <= y < height,
    ensures
        0 <= 3 * (y * width + x),
        3 * (y * width + x) + 2 < width * height * 3,
{
}

/// Composition is a function of the bytes: rasters that hold the same bytes
/// compose to the same frame.
pub proof fn lemma_same_bytes_same_frame(
    a: Seq<u8>,
    b: Seq<u8>,
    width: int,
    height: int,
    percent: int,
)
    requires
        a.len() == b.len(),
        forall|i: int| 0 <= i < a.len() ==> a[i] == b[i],
    ensures
        frame_rows(a, width, height, percent) == frame_rows(b, width, height, percent),
{
    assert(a =~= b);
}

/// The batched order of assembly yields the same row as walking the columns
/// one by one.
pub proof fn lemma_batched_row_is_scalar_row(rgb: Seq<u8>, width: int, row: int, percent: int)
    requires
        0 <= width,
    ensures
        batched_row(rgb, width, row, percent) == frame_row(rgb, width, row, percent),
{
    let full = width / (BATCH_WIDTH as int);
    lemma_leading_batches_are_a_run(rgb, width, row, percent, full as nat);
    assert(batched_row(rgb, width, row, percent) =~= frame_row(rgb, width, row, percent));
}

/// The first `n` batches are the first `BATCH_WIDTH * n` cells of the row.
pub proof fn lemma_leading_batches_are_a_run(
    rgb: Seq<u8>,
    width: int,
    row: int,
    percent: int,
    n: nat,
)
    ensures
        leading_batches(rgb, width, row, percent, n) == cell_run(
            rgb,
            width,
            row,
            percent,
            0,
            BATCH_WIDTH as nat * n,
        ),
    decreases n,
{
    if n > 0 {
        lemma_leading_batches_are_a_run(rgb, width, row, percent, (n - 1) as nat);
    }
    assert(leading_batches(rgb, width, row, percent, n) =~= cell_run(
        rgb,
        width,
        row,
        percent,
        0,
        BATCH_WIDTH as nat * n,
    ));
}

/// Luminance stays within eight bits.
pub proof fn lemma_luminance_range(c: Rgb)
    ensures
        0 <= luminance(c) <= 255,
{
}

/// The ramp index always names a symbol of the ramp.
pub proof fn lemma_ramp_index_range(lum: int, percent: int)
    ensures
        0 <= ramp_index(lum, percent) < RAMP_LEN,
{
}

/// A gain of one hundred percent leaves luminance as it is.
pub proof fn lemma_neutral_contrast(lum: int)
    requires
        0 <= lum <= 255,
    ensures
        contrasted(lum, CONTRAST_NEUTRAL as int) == 100 * lum,
{
}

/// Raising red, green and blue together never lowers luminance.
pub proof fn lemma_luminance_is_monotone(dim: Rgb, bright: Rgb)
    requires
        dim.red <= bright.red,
        dim.green <= bright.green,
        dim.blue <= bright.blue,
    ensures
        luminance(dim) <= luminance(bright),
{
}

/// A higher luminance never maps to an earlier symbol of the ramp, whatever
/// the contrast gain.
pub proof fn lemma_ramp_index_is_monotone(dim: int, bright: int, percent: int)
    requires
        dim <= bright,
        0 <= percent,
    ensures
        ramp_index(dim, percent) <= ramp_index(bright, percent),
{
    assert((dim - 128) * percent <= (bright - 128) * percent) by (nonlinear_arith)
        requires
            dim <= bright,
            0 <= percent,
    ;
}

/// Raising red, green and blue together, in both pixels of a pair, lowers
/// neither the luminance of the pair's mean nor the index of its symbol.
pub proof fn lemma_brighter_is_never_sparser(
    dim_top: Rgb,
    dim_bottom: Rgb,
    bright_top: Rgb,
    bright_bottom: Rgb,
    contrast_percent: u16,
)
    requires
        dim_top.red <= bright_top.red,
        dim_top.green <= bright_top.green,
        dim_top.blue <= bright_top.blue,
        dim_bottom.red <= bright_bottom.red,
        dim_bottom.green <= bright_bottom.green,
        dim_bottom.blue <= bright_bottom.blue,
    ensures
        luminance(blend(dim_top, dim_bottom)) <= luminance(blend(bright_top, bright_bottom)),
        ramp_index(luminance(blend(dim_top, dim_bottom)), contrast_percent as int) <= ramp_index(
            luminance(blend(bright_top, bright_bottom)),
            contrast_percent as int,
        ),
{
    lemma_luminance_is_monotone(blend(dim_top, dim_bottom), blend(bright_top, bright_bottom));
    lemma_ramp_index_is_monotone(
        luminance(blend(dim_top, dim_bottom)),
        luminance(blend(bright_top, bright_bottom)),
        contrast_percent as int,
    );
}

/// A frame has one text row for every full pair of pixel rows and one cell
/// for every pixel column.
pub proof fn lemma_frame_shape(rgb: Seq<u8>, width: int, height: int, percent: int)
    requires
        0 <= width,
        0 <= height,
    ensures
        frame_rows(rgb, width, height, percent).len() == height / 2,
        forall|row: int|
            0 <= row < height / 2 ==> (#[trigger] frame_rows(
                rgb,
                width,
                height,
                percent,
            )[row]).len() == width,
{
}

/// The shape of a frame does not depend on the stride of the plane it was
/// repacked from: the repacked rows are a packed frame, and it composes to
/// `height / 2` text rows of `width` cells.
pub proof fn lemma_repacked_frame_shape(
    plane: Seq<u8>,
    width: int,
    height: int,
    stride: int,
    percent: int,
)
    requires
        0 <= width,
        0 <= height,
        0 <= stride,
        rows_fit(plane.len(), width, height, stride),
    ensures
        is_packed_frame(packed_rows(plane, width, height, stride).len(), width, height),
        frame_rows(packed_rows(plane, width, height, stride), width, height, percent).len()
            == height / 2,
        forall|row: int|
            0 <= row < height / 2 ==> (#[trigger] frame_rows(
                packed_rows(plane, width, height, stride),
                width,
                height,
                percent,
            )[row]).len() == width,
{
    lemma_packed_rows_len(plane, width, height, stride);
}

/// The pixel in column `x` of row `y` of a plane with padded rows.
pub open spec fn plane_pixel(plane: Seq<u8>, stride: int, x: int, y: int) -> Rgb {
    Rgb {
        red: plane_byte(plane, stride, y, 3 * x),
        green: plane_byte(plane, stride, y, 3 * x + 1),
        blue: plane_byte(plane, stride, y, 3 * x + 2),
    }
}

/// Repacking keeps every pixel in its place: the compositor reads from the
/// repacked frame, at column `x` of row `y`, the pixel that the plane holds
/// there, whatever the stride.
pub proof fn lemma_repacked_pixels_stay_in_place(
    plane: Seq<u8>,
    width: int,
    height: int,
    stride: int,
    x: int,
    y: int,
)
    requires
        0 <= x < width,
        0 <= y < height,
        0 <= stride,
        rows_fit(plane.len(), width, height, stride),
    ensures
        pixel_at(packed_rows(plane, width, height, stride), width, x, y) == plane_pixel(
            plane,
            stride,
            x,
            y,
        ),
{
    assert(3 * (y * width + x) == y * (width * 3) + 3 * x) by (nonlinear_arith);
    lemma_packed_byte(plane, width, height, stride, y, 3 * x);
    lemma_packed_byte(plane, width, height, stride, y, 3 * x + 1);
    lemma_packed_byte(plane, width, height, stride, y, 3 * x + 2);
}

/// Rows are independent of each other: text row `row` is decided by the
/// bytes of pixel rows `2 * row` and `2 * row + 1` alone, so rows may be
/// composed in any order, or side by side.
pub proof fn lemma_rows_are_independent(
    a: Seq<u8>,
    b: Seq<u8>,
    width: int,
    row: int,
    percent: int,
)
    requires
        0 <= width,
        0 <= row,
        forall|i: int| 6 * (row * width) <= i < 6 * (row * width) + 6 * width ==> a[i] == b[i],
    ensures
        frame_row(a, width, row, percent) == frame_row(b, width, row, percent),
{
    assert forall|x: int| 0 <= x < width implies cell_at(a, width, x, row, percent) == cell_at(
        b,
        width,
        x,
        row,
        percent,
    ) by {
        assert((2 * row) * width == 2 * (row * width)) by (nonlinear_arith);
        assert((2 * row + 1) * width == 2 * (row * width) + width) by (nonlinear_arith);
        assert(pixel_at(a, width, x, 2 * row) == pixel_at(b, width, x, 2 * row));
        assert(pixel_at(a, width, x, 2 * row + 1) == pixel_at(b, width, x, 2 * row + 1));
    }
    assert(frame_row(a, width, row, percent) =~= frame_row(b, width, row, percent));
}

/// Looks a symbol up on the ramp.
pub fn ramp_symbol_at(index: usize) -> (symbol: char)
    ensures
        symbol == ramp_symbol(index as int),
{
    if index <= 1 {
        ' '
    } else if index == 2 {
        '.'
    } else if index == 3 {
        ':'
    } else if index == 4 {
        '-'
    } else if index == 5 {
        '='
    } else if index == 6 {
        '+'
    } else if index == 7 {
        '*'
    } else if index == 8 {
        '#'
    } else if index == 9 {
        '%'
    } else {
        '@'
    }
}

/// Computes the luminance of a colour.
pub fn luminance_of(c: Rgb) -> (lum: u8)
    ensures
        lum == luminance(c),
{
    let weighted: u32 = 54 * (c.red as u32) + 183 * (c.green as u32) + 19 * (c.blue as u32);
    (weighted / 256) as u8
}

/// Maps a luminance to its ramp index under a contrast gain in percent.
pub fn ramp_index_of(lum: u8, contrast_percent: u16) -> (index: usize)
    ensures
        index == ramp_index(lum as int, contrast_percent as int),
        index < RAMP_LEN,
{
    let centered: i32 = lum as i32 - 128;
    let gain: i32 = contrast_percent as i32;
    assert(-128 * 65535 <= centered * gain <= 127 * 65535) by (nonlinear_arith)
        requires
            -128 <= centered <= 127,
            0 <= gain <= 65535,
    ;
    let scaled: i32 = centered * gain + 12800;
    let held: i32 = if scaled < 0 {
        0
    } else if scaled > 25500 {
        25500
    } else {
        scaled
    };
    ((2 * held * 10 + 25500) / 51000) as usize
}

/// Averages two pixels channel by channel.
pub fn blend_of(top: Rgb, bottom: Rgb) -> (mean: Rgb)
    ensures
        mean == blend(top, bottom),
{
    Rgb {
        red: ((top.red as u16 + bottom.red as u16) / 2) as u8,
        green: ((top.green as u16 + bottom.green as u16) / 2) as u8,
        blue: ((top.blue as u16 + bottom.blue as u16) / 2) as u8,
    }
}

/// Tones a mean colour down to the colour its symbol is drawn in.
pub fn ink_of(mean: Rgb) -> (color: Rgb)
    ensures
        color == ink(mean),
{
    Rgb {
        red: (mean.red as u16 * 4 / 5) as u8,
        green: (mean.green as u16 * 4 / 5) as u8,
        blue: (mean.blue as u16 * 4 / 5) as u8,
    }
}

/// Composes the cell for two vertically adjacent pixels.
pub fn glyph_for(top: Rgb, bottom: Rgb, contrast_percent: u16) -> (glyph: Glyph)
    ensures
        glyph == glyph_of(top, bottom, contrast_percent as int),
{
    let mean = blend_of(top, bottom);
    let index: usize = ramp_index_of(luminance_of(mean), contrast_percent);
    Glyph { symbol: ramp_symbol_at(index), color: ink_of(mean) }
}

/// Tells whether `len` bytes are a packed frame of `width` by `height`
/// pixels.
pub fn frame_len_matches(len: usize, width: usize, height: usize) -> (matches: bool)
    ensures
        matches == is_packed_frame(len as nat, width as int, height as int),
{
    if width == 0 || height == 0 {
        assert(width * height * 3 == 0) by (nonlinear_arith)
            requires
                width == 0 || height == 0,
        ;
        return len == 0;
    }
    match width.checked_mul(height) {
        None => {
            assert(width * height * 3 > len) by (nonlinear_arith)
                requires
                    width * height > usize::MAX,
                    len <= usize::MAX,
            ;
            false
        },
        Some(pixels) => match pixels.checked_mul(3) {
            None => false,
            Some(bytes) => bytes == len,
        },
    }
}

/// Reads the pixel in column `x` of pixel row `y`.
fn pixel(rgb: &[u8], width: usize, x: usize, y: usize) -> (p: Rgb)
    requires
        3 * (y * width + x) + 2 < rgb@.len(),
    ensures
        p == pixel_at(rgb@, width as int, x as int, y as int),
{
    assert(0 <= y * width) by (nonlinear_arith)
        requires
            0 <= y,
            0 <= width,
    ;
    assert(rgb@.len() == rgb.len());
    let base: usize = 3 * (y * width + x);
    Rgb { red: rgb[base], green: rgb[base + 1], blue: rgb[base + 2] }
}

/// Composes the cell in column `x` of text row `row`.
fn cell(
    rgb: &[u8],
    width: usize,
    height: usize,
    x: usize,
    row: usize,
    contrast_percent: u16,
) -> (glyph: Glyph)
    requires
        is_packed_frame(rgb@.len(), width as int, height as int),
        x < width,
        row < height / 2,
    ensures
        glyph == cell_at(rgb@, width as int, x as int, row as int, contrast_percent as int),
{
    proof {
        lemma_pixel_in_frame(width as int, height as int, x as int, 2 * row);
        lemma_pixel_in_frame(width as int, height as int, x as int, 2 * row + 1);
    }
    let top = pixel(rgb, width, x, 2 * row);
    let bottom = pixel(rgb, width, x, 2 * row + 1);
    glyph_for(top, bottom, contrast_percent)
}

/// Composes text row `row` one column at a time.
fn scalar_row(
    rgb: &[u8],
    width: usize,
    height: usize,
    row: usize,
    contrast_percent: u16,
) -> (cells: Vec<Glyph>)
    requires
        is_packed_frame(rgb@.len(), width as int, height as int),
        row < height / 2,
    ensures
        cells@ == frame_row(rgb@, width as int, row as int, contrast_percent as int),
{
    let mut cells: Vec<Glyph> = Vec::new();
    let mut x: usize = 0;
    while x < width
        invariant
            is_packed_frame(rgb@.len(), width as int, height as int),
            row < height / 2,
            x <= width,
            cells@ == cell_run(
                rgb@,
                width as int,
                row as int,
                contrast_percent as int,
                0,
                x as nat,
            ),
        decreases width - x,
    {
        cells.push(cell(rgb, width, height, x, row, contrast_percent));
        x += 1;
    }
    cells
}

/// Composes text row `row` in batches: for `BATCH_WIDTH` columns at a time
/// the means and luminances are worked out first and the cells are made from
/// them afterwards; the columns left over are composed one at a time.
fn batched_row_cells(
    rgb: &[u8],
    width: usize,
    height: usize,
    row: usize,
    contrast_percent: u16,
) -> (cells: Vec<Glyph>)
    requires
        is_packed_frame(rgb@.len(), width as int, height as int),
        row < height / 2,
    ensures
        cells@ == batched_row(rgb@, width as int, row as int, contrast_percent as int),
        cells@ == frame_row(rgb@, width as int, row as int, contrast_percent as int),
{
    let mut cells: Vec<Glyph> = Vec::new();
    let mut x: usize = 0;
    let ghost mut batches: nat = 0;
    while width - x >= BATCH_WIDTH
        invariant
            is_packed_frame(rgb@.len(), width as int, height as int),
            row < height / 2,
            x <= width,
            x == BATCH_WIDTH * batches,
            cells@ == leading_batches(
                rgb@,
                width as int,
                row as int,
                contrast_percent as int,
                batches,
            ),
        decreases width - x,
    {
        let black = Rgb { red: 0, green: 0, blue: 0 };
        let mut means: [Rgb; 4] = [black; 4];
        let mut lums: [u8; 4] = [0u8; 4];
        let mut i: usize = 0;
        while i < BATCH_WIDTH
            invariant
                is_packed_frame(rgb@.len(), width as int, height as int),
                row < height / 2,
                x + BATCH_WIDTH <= width,
                i <= BATCH_WIDTH,
                forall|k: int|
                    0 <= k < i ==> means@[k] == blend(
                        pixel_at(rgb@, width as int, x + k, 2 * row),
                        pixel_at(rgb@, width as int, x + k, 2 * row + 1),
                    ),
                forall|k: int| 0 <= k < i ==> lums@[k] == luminance(means@[k]),
            decreases BATCH_WIDTH - i,
        {
            proof {
                lemma_pixel_in_frame(width as int, height as int, x + i, 2 * row);
                lemma_pixel_in_frame(width as int, height as int, x + i, 2 * row + 1);
            }
            let top = pixel(rgb, width, x + i, 2 * row);
            let bottom = pixel(rgb, width, x + i, 2 * row + 1);
            let mean = blend_of(top, bottom);
            means[i] = mean;
            lums[i] = luminance_of(mean);
            i += 1;
        }
        let ghost before = cells@;
        let mut j: usize = 0;
        while j < BATCH_WIDTH
            invariant
                j <= BATCH_WIDTH,
                forall|k: int|
                    0 <= k < BATCH_WIDTH ==> means@[k] == blend(
                        pixel_at(rgb@, width as int, x + k, 2 * row),
                        pixel_at(rgb@, width as int, x + k, 2 * row + 1),
                    ),
                forall|k: int| 0 <= k < BATCH_WIDTH ==> lums@[k] == luminance(means@[k]),
                cells@ == before + cell_run(
                    rgb@,
                    width as int,
                    row as int,
                    contrast_percent as int,
                    x as int,
                    j as nat,
                ),
            decreases BATCH_WIDTH - j,
        {
            let index: usize = ramp_index_of(lums[j], contrast_percent);
            cells.push(Glyph { symbol: ramp_symbol_at(index), color: ink_of(means[j]) });
            j += 1;
        }
        x += BATCH_WIDTH;
        proof {
            batches = batches + 1;
        }
    }
    let ghost full = width as int / (BATCH_WIDTH as int);
    assert(batches == full);
    let ghost head = cells@;
    while x < width
        invariant
            is_packed_frame(rgb@.len(), width as int, height as int),
            row < height / 2,
            BATCH_WIDTH * full <= x <= width,
            cells@ == head + cell_run(
                rgb@,
                width as int,
                row as int,
                contrast_percent as int,
                BATCH_WIDTH * full,
                (x - BATCH_WIDTH * full) as nat,
            ),
        decreases width - x,
    {
        cells.push(cell(rgb, width, height, x, row, contrast_percent));
        x += 1;
    }
    proof {
        lemma_batched_row_is_scalar_row(rgb@, width as int, row as int, contrast_percent as int);
    }
    cells
}

/// Composes one text row of a frame, column by column.
///
/// There is a row to compose when the bytes are a packed frame of the given
/// size and `row` is one of its `height / 2` text rows.
pub fn compose_row(
    rgb: &[u8],
    width: usize,
    height: usize,
    row: usize,
    contrast_percent: u16,
) -> (cells: Option<Vec<Glyph>>)
    ensures
        cells.is_some() <==> is_packed_frame(rgb@.len(), width as int, height as int) && row
            < height / 2,
        cells matches Some(c) ==> c@ == frame_row(
            rgb@,
            width as int,
            row as int,
            contrast_percent as int,
        ),
        cells matches Some(c) ==> c@.len() == width,
{
    if !frame_len_matches(rgb.len(), width, height) || row >= height / 2 {
        return None;
    }
    Some(scalar_row(rgb, width, height, row, contrast_percent))
}

/// Composes one text row of a frame in batches of `BATCH_WIDTH` columns.
///
/// The row is the one that `compose_row` yields, cell for cell.
pub fn compose_row_batched(
    rgb: &[u8],
    width: usize,
    height: usize,
    row: usize,
    contrast_percent: u16,
) -> (cells: Option<Vec<Glyph>>)
    ensures
        cells.is_some() <==> is_packed_frame(rgb@.len(), width as int, height as int) && row
            < height / 2,
        cells matches Some(c) ==> c@ == batched_row(
            rgb@,
            width as int,
            row as int,
            contrast_percent as int,
        ),
        cells matches Some(c) ==> c@ == frame_row(
            rgb@,
            width as int,
            row as int,
            contrast_percent as int,
        ),
        cells matches Some(c) ==> c@.len() == width,
{
    if !frame_len_matches(rgb.len(), width, height) || row >= height / 2 {
        return None;
    }
    Some(batched_row_cells(rgb, width, height, row, contrast_percent))
}

/// Composes a whole frame, top row first.
///
/// A raster whose length is not exactly `width * height * 3` is dropped
/// whole: no row of it is composed.
pub fn compose_frame(rgb: &[u8], width: usize, height: usize, contrast_percent: u16) -> (frame:
    Option<Vec<Vec<Glyph>>>)
    ensures
        frame.is_some() <==> is_packed_frame(rgb@.len(), width as int, height as int),
        frame matches Some(rows) ==> rows_match(
            rows@,
            frame_rows(rgb@, width as int, height as int, contrast_percent as int),
        ),
        frame matches Some(rows) ==> rows@.len() == height / 2,
        frame matches Some(rows) ==> forall|r: int|
            0 <= r < rows@.len() ==> (#[trigger] rows@[r])@.len() == width,
{
    if !frame_len_matches(rgb.len(), width, height) {
        return None;
    }
    let text_rows: usize = height / 2;
    let mut rows: Vec<Vec<Glyph>> = Vec::new();
    let mut row: usize = 0;
    while row < text_rows
        invariant
            is_packed_frame(rgb@.len(), width as int, height as int),
            text_rows == height / 2,
            row <= text_rows,
            rows@.len() == row,
            forall|r: int|
                0 <= r < row ==> (#[trigger] rows@[r])@ == frame_row(
                    rgb@,
                    width as int,
                    r,
                    contrast_percent as int,
                ),
        decreases text_rows - row,
    {
        rows.push(batched_row_cells(rgb, width, height, row, contrast_percent));
        row += 1;
    }
    Some(rows)
}

/// A line of styled text is `ratatui`'s own type. Proofs see nothing of its
/// inside; what a line shows is named by `line_glyphs`.
#[verifier::external_type_specification]
#[verifier::external_body]
pub struct ExLine<'a>(Line<'a>);

/// The cells that a line of styled text shows, left to right: for each of its
/// spans the symbol it holds and the foreground colour of its style.
pub uninterp spec fn line_glyphs(line: Line<'static>) -> Seq<Glyph>;

/// `lines` show exactly the text rows `expected`, in order.
pub open spec fn lines_show(lines: Seq<Line<'static>>, expected: Seq<Seq<Glyph>>) -> bool {
    &&& lines.len() == expected.len()
    &&& forall|r: int| 0 <= r < lines.len() ==> line_glyphs(#[trigger] lines[r]) == expected[r]
}

/// Turns a row of cells into a line of styled text. `Span::styled` makes one
/// span per cell out of the cell's symbol and of the style that
/// `Style::default().fg(Color::Rgb(..))` gives for the cell's colour, and
/// `Line::from` joins the spans in order. The contract claims, without
/// proof, that the line shows the row's cells, one span each, and nothing
/// else.
#[verifier::external_body]
fn styled_line(cells: &Vec<Glyph>) -> (line: Line<'static>)
    ensures
        line_glyphs(line) == cells@,
{
    let spans: Vec<Span<'static>> = cells.iter().map(
        |g| Span::styled(
            g.symbol.to_string(),
            Style::default().fg(Color::Rgb(g.color.red, g.color.green, g.color.blue)),
        ),
    ).collect();
    Line::from(spans)
}

/// Composes one text row of a frame as a line of styled text, at the default
/// contrast.
pub fn compose_line(rgb: &[u8], width: usize, height: usize, row: usize) -> (line: Option<
    Line<'static>,
>)
    ensures
        line.is_some() <==> is_packed_frame(rgb@.len(), width as int, height as int) && row
            < height / 2,
        line matches Some(l) ==> line_glyphs(l) == frame_row(
            rgb@,
            width as int,
            row as int,
            CONTRAST_DEFAULT as int,
        ),
        line matches Some(l) ==> line_glyphs(l).len() == width,
{
    match compose_row_batched(rgb, width, height, row, CONTRAST_DEFAULT) {
        Some(cells) => Some(styled_line(&cells)),
        None => None,
    }
}

/// Composes a frame into `out` as lines of styled text, at the default
/// contrast.
///
/// `out` is emptied first and then holds one line for every pair of pixel
/// rows. A raster whose length is not exactly `width * height * 3` is dropped
/// whole: `out` stays empty and the result is `false`.
pub fn rgb_to_colored_ascii(
    rgb: &[u8],
    width: usize,
    height: usize,
    out: &mut Vec<Line<'static>>,
) -> (composed: bool)
    ensures
        composed == is_packed_frame(rgb@.len(), width as int, height as int),
        composed ==> lines_show(
            final(out)@,
            frame_rows(rgb@, width as int, height as int, CONTRAST_DEFAULT as int),
        ),
        composed ==> final(out)@.len() == height / 2,
        composed ==> forall|r: int|
            0 <= r < final(out)@.len() ==> line_glyphs(#[trigger] final(out)@[r]).len() == width,
        !composed ==> final(out)@.len() == 0,
{
    out.clear();
    if !frame_len_matches(rgb.len(), width, height) {
        return false;
    }
    let text_rows: usize = height / 2;
    let mut row: usize = 0;
    while row < text_rows
        invariant
            is_packed_frame(rgb@.len(), width as int, height as int),
            text_rows == height / 2,
            row <= text_rows,
            out@.len() == row,
            forall|r: int|
                0 <= r < row ==> line_glyphs(#[trigger] out@[r]) == frame_row(
                    rgb@,
                    width as int,
                    r,
                    CONTRAST_DEFAULT as int,
                ),
        decreases text_rows - row,
    {
        let cells = batched_row_cells(rgb, width, height, row, CONTRAST_DEFAULT);
        out.push(styled_line(&cells));
        row += 1;
    }
    true
}

} // verus!
