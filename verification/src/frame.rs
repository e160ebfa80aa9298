//! The frame buffer: a rectangle of 32-bit pixels, row by row, that the
//! renderer's `PixelBuffer` holds.

use vstd::prelude::*;
use specs_blit::PixelBuffer;

verus! {

#[verifier::external_type_specification]
#[verifier::external_body]
pub struct ExPixelBuffer(PixelBuffer);

/// The pixels a frame buffer holds, row by row from the top left.
pub uninterp spec fn buffer_pixels(buffer: PixelBuffer) -> Seq<u32>;

/// The width in pixels that a frame buffer was made with.
pub uninterp spec fn buffer_width(buffer: PixelBuffer) -> nat;

/// The height in pixels that a frame buffer was made with.
pub uninterp spec fn buffer_height(buffer: PixelBuffer) -> nat;

/// A frame buffer holds one pixel for each position of its rectangle.
pub open spec fn well_formed(buffer: PixelBuffer) -> bool {
    buffer_pixels(buffer).len() == buffer_width(buffer) * buffer_height(buffer)
}

/// Whether a point lies inside a screen of the given size.
pub open spec fn on_screen(point: (i64, i64), width: nat, height: nat) -> bool {
    0 <= point.0 < width && 0 <= point.1 < height
}

/// Where the pixel of a point stands in the buffer.
pub open spec fn pixel_index(point: (i64, i64), width: nat) -> int {
    point.0 + point.1 * width
}

/// `PixelBuffer::new`: a buffer of the given size with every pixel black
/// (zero). The size times four bytes must fit an allocation.
#[verifier::external_body]
fn new_buffer(width: usize, height: usize) -> (buffer: PixelBuffer)
    requires
        width * height * 4 <= isize::MAX,
    ensures
        buffer_width(buffer) == width,
        buffer_height(buffer) == height,
        buffer_pixels(buffer) == Seq::new((width * height) as nat, |i: int| 0u32),
{
    PixelBuffer::new(width, height)
}

/// `PixelBuffer::width`: the width the buffer was made with.
#[verifier::external_body]
pub(crate) fn width_of(buffer: &PixelBuffer) -> (width: usize)
    ensures
        width == buffer_width(*buffer),
{
    buffer.width()
}

/// `PixelBuffer::height`: the height the buffer was made with.
#[verifier::external_body]
pub(crate) fn height_of(buffer: &PixelBuffer) -> (height: usize)
    ensures
        height == buffer_height(*buffer),
{
    buffer.height()
}

/// `PixelBuffer::pixels_mut`: the buffer lends out its pixel vector. What
/// the borrower leaves in the vector is what the buffer holds afterwards;
/// width and height stay as they were.
#[verifier::external_body]
pub(crate) fn pixels_mut(buffer: &mut PixelBuffer) -> (pixels: &mut Vec<u32>)
    ensures
        pixels@ == buffer_pixels(*old(buffer)),
        buffer_pixels(*final(buffer)) == final(pixels)@,
        buffer_width(*final(buffer)) == buffer_width(*old(buffer)),
        buffer_height(*final(buffer)) == buffer_height(*old(buffer)),
{
    buffer.pixels_mut()
}

/// A black frame buffer of the given size, or nothing if a buffer of that
/// size cannot be addressed.
pub fn frame_buffer(width: usize, height: usize) -> (buffer: Option<PixelBuffer>)
    ensures
        buffer.is_some() <==> width * height * 4 <= isize::MAX,
        buffer matches Some(b) ==> {
            &&& well_formed(b)
            &&& buffer_width(b) == width
            &&& buffer_height(b) == height
            &&& buffer_pixels(b) == Seq::new((width * height) as nat, |i: int| 0u32)
        },
{
    let limit = (isize::MAX as usize) / 4;
    match width.checked_mul(height) {
        Some(area) => {
            if area <= limit {
                Some(new_buffer(width, height))
            } else {
                None
            }
        },
        None => None,
    }
}

/// The pixel at column `x` of row `y`.
pub open spec fn pixel_at(pixels: Seq<u32>, width: nat, x: int, y: int) -> u32 {
    pixels[x + y * width]
}

/// Set the pixel at column `x` of row `y` to a colour.
pub fn set_pixel(buffer: &mut PixelBuffer, x: usize, y: usize, color: u32)
    requires
        well_formed(*old(buffer)),
        x < buffer_width(*old(buffer)),
        y < buffer_height(*old(buffer)),
    ensures
        well_formed(*final(buffer)),
        buffer_width(*final(buffer)) == buffer_width(*old(buffer)),
        buffer_height(*final(buffer)) == buffer_height(*old(buffer)),
        0 <= x + y * buffer_width(*old(buffer)) < buffer_pixels(*old(buffer)).len(),
        buffer_pixels(*final(buffer)) == buffer_pixels(*old(buffer)).update(
            x + y * buffer_width(*old(buffer)),
            color,
        ),
{
    let width = width_of(buffer);
    let ghost height = buffer_height(*buffer);
    let pixels = pixels_mut(buffer);
    assert(0 <= y * width && y * width + x < width * height) by (nonlinear_arith)
        requires
            x < width,
            y < height,
    ;
    let len = pixels.len();
    assert(len == width * height);
    let index = y * width + x;
    pixels[index] = color;
}

/// Set the pixel under a point to a colour if the point is on the screen.
/// Returns whether it is.
pub fn plot_point(buffer: &mut PixelBuffer, point: (i64, i64), color: u32) -> (visible: bool)
    requires
        well_formed(*old(buffer)),
    ensures
        visible == on_screen(point, buffer_width(*old(buffer)), buffer_height(*old(buffer))),
        visible ==> 0 <= pixel_index(point, buffer_width(*old(buffer))) < buffer_pixels(
            *old(buffer),
        ).len(),
        well_formed(*final(buffer)),
        buffer_width(*final(buffer)) == buffer_width(*old(buffer)),
        buffer_height(*final(buffer)) == buffer_height(*old(buffer)),
        buffer_pixels(*final(buffer)) == if visible {
            buffer_pixels(*old(buffer)).update(
                pixel_index(point, buffer_width(*old(buffer))),
                color,
            )
        } else {
            buffer_pixels(*old(buffer))
        },
{
    let width = width_of(buffer);
    let height = height_of(buffer);
    if point.0 < 0 || point.1 < 0 {
        return false;
    }
    if point.0 as u64 >= width as u64 || point.1 as u64 >= height as u64 {
        return false;
    }
    set_pixel(buffer, point.0 as usize, point.1 as usize, color);
    true
}

/// In a buffer that fills its rectangle every position has a pixel of its
/// own: setting the pixel at one position changes it there and nowhere
/// else.
pub proof fn lemma_set_pixel(
    pixels: Seq<u32>,
    width: nat,
    height: nat,
    x: int,
    y: int,
    color: u32,
)
    requires
        pixels.len() == width * height,
        0 <= x < width,
        0 <= y < height,
    ensures
        0 <= x + y * width < pixels.len(),
        forall|px: int, py: int|
            0 <= px < width && 0 <= py < height ==> #[trigger] pixel_at(
                pixels.update(x + y * width, color),
                width,
                px,
                py,
            ) == if px == x && py == y {
                color
            } else {
                pixel_at(pixels, width, px, py)
            },
{
    lemma_position_index(width, height, x, y);
    assert forall|px: int, py: int| 0 <= px < width && 0 <= py < height implies #[trigger] pixel_at(
        pixels.update(x + y * width, color),
        width,
        px,
        py,
    ) == if px == x && py == y {
        color
    } else {
        pixel_at(pixels, width, px, py)
    } by {
        lemma_position_index(width, height, px, py);
        if px + py * width == x + y * width {
            lemma_positions_differ(width, px, py, x, y);
        }
    }
}

/// The index of a position of the rectangle is an index of the buffer.
pub proof fn lemma_position_index(width: nat, height: nat, x: int, y: int)
    requires
        0 <= x < width,
        0 <= y < height,
    ensures
        0 <= x + y * width < width * height,
{
    assert(0 <= y * width && y * width + x < width * height) by (nonlinear_arith)
        requires
            0 <= x < width,
            0 <= y < height,
    ;
}

/// Two positions of a row-by-row rectangle with the same index are the
/// same position.
pub proof fn lemma_positions_differ(width: nat, x1: int, y1: int, x2: int, y2: int)
    requires
        0 <= x1 < width,
        0 <= x2 < width,
        x1 + y1 * width == x2 + y2 * width,
    ensures
        x1 == x2,
        y1 == y2,
{
    assert(y1 == y2) by (nonlinear_arith)
        requires
            0 <= x1 < width,
            0 <= x2 < width,
            x1 + y1 * width == x2 + y2 * width,
    ;
}

} // verus!
