//! Pictures made from scratch, held in the `image` crate's RGB buffers.
use vstd::prelude::*;

use image::{ImageBuffer, RgbImage};

verus! {

/// One pixel: three 8-bit colour channels.
#[derive(Clone, Copy, Debug, PartialEq, Eq, Structural)]
pub struct Color {
    pub red: u8,
    pub green: u8,
    pub blue: u8,
}

/// An RGB picture, held in the `image` crate's buffer of 8-bit channels
/// stored row by row. Verus does not take the buffer type's own declaration,
/// whose pixel parameter is bound by an `image` trait.
#[verifier::external_body]
pub struct Picture {
    pub buffer: RgbImage,
}

/// Columns of a picture.
pub uninterp spec fn buffer_width(b: Picture) -> nat;

/// Rows of a picture.
pub uninterp spec fn buffer_height(b: Picture) -> nat;

/// The pixels of a picture as (red, green, blue), row by row.
pub uninterp spec fn buffer_pixels(b: Picture) -> Seq<(u8, u8, u8)>;

/// The channels of a pixel, in buffer order.
pub open spec fn channels(c: Color) -> (u8, u8, u8) {
    (c.red, c.green, c.blue)
}

/// A picture holds one pixel for each cell of its grid.
pub open spec fn well_formed(b: Picture) -> bool {
    buffer_pixels(b).len() == buffer_width(b) * buffer_height(b)
}

/// The pixel at column `x` and row `y`.
pub open spec fn pixel_at(b: Picture, x: int, y: int) -> (u8, u8, u8) {
    buffer_pixels(b)[y * buffer_width(b) + x]
}

/// Relies on `ImageBuffer::new`: a `width` × `height` buffer with every
/// channel zero. It panics where three bytes a pixel overflow `usize`.
#[verifier::external_body]
fn new_buffer(width: u32, height: u32) -> (b: Picture)
    requires
        3 * (width as int) * (height as int) <= usize::MAX,
    ensures
        buffer_width(b) == width,
        buffer_height(b) == height,
        buffer_pixels(b) == Seq::new((width * height) as nat, |i: int| (0u8, 0u8, 0u8)),
{
    Picture { buffer: ImageBuffer::new(width, height) }
}

/// Relies on `ImageBuffer::put_pixel`: sets the pixel at column `x` and row
/// `y`, stored at `y * width + x`. It panics outside the grid.
#[verifier::external_body]
fn put_pixel(b: &mut Picture, x: u32, y: u32, color: Color)
    requires
        x < buffer_width(*old(b)),
        y < buffer_height(*old(b)),
    ensures
        buffer_width(*final(b)) == buffer_width(*old(b)),
        buffer_height(*final(b)) == buffer_height(*old(b)),
        buffer_pixels(*final(b)) == buffer_pixels(*old(b)).update(
            y * buffer_width(*old(b)) + x,
            channels(color),
        ),
{
    b.buffer.put_pixel(x, y, image::Rgb([color.red, color.green, color.blue]))
}

proof fn lemma_cell(w: int, h: int, x: int, y: int)
    requires
        0 <= x < w,
        0 <= y < h,
    ensures
        0 <= y * w + x < w * h,
{
    assert(0 <= y * w + x < w * h) by (nonlinear_arith)
        requires 0 <= x < w, 0 <= y < h;
}

proof fn lemma_cells_differ(w: int, x: int, y: int, i: int, j: int)
    requires
        0 <= x < w,
        0 <= i < w,
        x != i || y != j,
    ensures
        y * w + x != j * w + i,
{
    assert(y * w + x != j * w + i) by (nonlinear_arith)
        requires 0 <= x < w, 0 <= i < w, x != i || y != j;
}

/// A `width` × `height` picture whose pixel at column `x` and row `y` is
/// `colors[y * width + x]`.
pub fn paint(width: u32, height: u32, colors: &Vec<Color>) -> (b: Picture)
    requires
        3 * (width as int) * (height as int) <= usize::MAX,
        colors@.len() == width * height,
    ensures
        well_formed(b),
        buffer_width(b) == width,
        buffer_height(b) == height,
        forall|x: int, y: int|
            0 <= x < width && 0 <= y < height ==> #[trigger] pixel_at(b, x, y) == channels(
                colors@[y * width + x],
            ),
{
    let mut b = new_buffer(width, height);
    let mut y: u32 = 0;
    while y < height
        invariant
            buffer_width(b) == width,
            buffer_height(b) == height,
            well_formed(b),
            y <= height,
            colors@.len() == width * height,
            forall|i: int, j: int|
                0 <= i < width && 0 <= j < y ==> #[trigger] pixel_at(b, i, j) == channels(
                    colors@[j * width + i],
                ),
        decreases height - y,
    {
        let mut x: u32 = 0;
        while x < width
            invariant
                buffer_width(b) == width,
                buffer_height(b) == height,
                well_formed(b),
                x <= width,
                y < height,
                colors@.len() == width * height,
                forall|i: int, j: int|
                    0 <= i < width && 0 <= j < y ==> #[trigger] pixel_at(b, i, j) == channels(
                        colors@[j * width + i],
                    ),
                forall|i: int|
                    0 <= i < x ==> #[trigger] pixel_at(b, i, y as int) == channels(
                        colors@[y * width + i],
                    ),
            decreases width - x,
        {
            proof {
                lemma_cell(width as int, height as int, x as int, y as int);
            }
            let _n = colors.len();
            let k: usize = (y as usize) * (width as usize) + (x as usize);
            let color = colors[k];
            let ghost before = b;
            put_pixel(&mut b, x, y, color);
            proof {
                assert forall|i: int, j: int|
                    0 <= i < width && 0 <= j <= y && (j < y || i < x) implies pixel_at(b, i, j)
                    == pixel_at(before, i, j) by {
                    lemma_cell(width as int, height as int, i, j);
                    lemma_cells_differ(width as int, x as int, y as int, i, j);
                }
            }
            x = x + 1;
        }
        y = y + 1;
    }
    b
}

/// A `width` × `height` picture with every pixel set to `color`.
pub fn filled(width: u32, height: u32, color: Color) -> (b: Picture)
    requires
        3 * (width as int) * (height as int) <= usize::MAX,
    ensures
        well_formed(b),
        buffer_width(b) == width,
        buffer_height(b) == height,
        forall|x: int, y: int|
            0 <= x < width && 0 <= y < height ==> #[trigger] pixel_at(b, x, y) == channels(color),
{
    assert((width as int) * (height as int) <= 3 * (width as int) * (height as int)) by (nonlinear_arith);
    let total: usize = (width as usize) * (height as usize);
    let colors: Vec<Color> = vec![color; total];
    let b = paint(width, height, &colors);
    assert forall|x: int, y: int| 0 <= x < width && 0 <= y < height implies #[trigger] pixel_at(
        b,
        x,
        y,
    ) == channels(color) by {
        lemma_cell(width as int, height as int, x, y);
    }
    b
}


} // verus!
