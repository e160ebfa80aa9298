//! Blitting: putting a bitmap onto the frame buffer, clipped to the
//! screen, the way the renderer puts each sprite there.

use vstd::prelude::*;
use specs_blit::blit::BlitBuffer;
use specs_blit::PixelBuffer;
use crate::frame::{
    buffer_height, buffer_pixels, buffer_width, pixel_at, pixels_mut, well_formed, width_of,
};
use crate::sprite::{
    bitmap_entries, bitmap_entry, bitmap_filled, bitmap_height, bitmap_width, opaque_color,
    size_of,
};

verus! {

/// Whether the screen position `(px, py)` lies under a bitmap whose top
/// left corner is at `(x, y)`.
pub open spec fn under(bitmap: BlitBuffer, x: int, y: int, px: int, py: int) -> bool {
    0 <= px - x < bitmap_width(bitmap) && 0 <= py - y < bitmap_height(bitmap)
}

/// What a blit makes of one pixel of the screen: what the mask keeps of
/// it, with the colour laid over.
pub open spec fn blit_pixel(before: u32, entry: (u32, u32)) -> u32 {
    before & entry.1 | entry.0
}

/// The colour at a screen position after a bitmap was blitted at
/// `(x, y)`: under the bitmap the `blit_pixel` of what was there and of
/// the bitmap's entry for the position, elsewhere what was there.
pub open spec fn blitted_at(
    before: Seq<u32>,
    screen_width: nat,
    bitmap: BlitBuffer,
    x: int,
    y: int,
    px: int,
    py: int,
) -> u32 {
    if under(bitmap, x, y, px, py) {
        blit_pixel(
            pixel_at(before, screen_width, px, py),
            bitmap_entries(bitmap)[(px - x) + (py - y) * bitmap_width(bitmap)],
        )
    } else {
        pixel_at(before, screen_width, px, py)
    }
}

/// Whether `after` is the screen `before` with a bitmap blitted at
/// `(x, y)`: the buffer is as long as it was, and every position of the
/// screen holds its `blitted_at`.
pub open spec fn blitted(
    before: Seq<u32>,
    after: Seq<u32>,
    screen_width: nat,
    screen_height: nat,
    bitmap: BlitBuffer,
    x: int,
    y: int,
) -> bool {
    &&& after.len() == before.len()
    &&& forall|px: int, py: int|
        0 <= px < screen_width && 0 <= py < screen_height ==> #[trigger] pixel_at(
            after,
            screen_width,
            px,
            py,
        ) == blitted_at(before, screen_width, bitmap, x, y, px, py)
}

/// Whether a bitmap can be blitted at a position onto a screen of the
/// given width and number of pixels: the screen is not empty, and the
/// screen's size and the far corner of the bitmap fit 32-bit signed
/// numbers.
pub open spec fn blittable(
    screen_width: nat,
    screen_len: nat,
    bitmap: BlitBuffer,
    position: (i32, i32),
) -> bool {
    &&& 0 < screen_width <= i32::MAX
    &&& screen_len <= i32::MAX
    &&& position.0 + bitmap_width(bitmap) <= i32::MAX
    &&& position.1 + bitmap_height(bitmap) <= i32::MAX
}

/// `BlitBuffer::blit`: blits the bitmap onto pixels that are `width` wide,
/// with its top left corner at `offset`. The number of pixels stays; each
/// pixel under the bitmap becomes its `blit_pixel`, the others stay. The
/// outside arithmetic is 32-bit and signed, which the sizes and the far
/// corner of the bitmap must fit.
#[verifier::external_body]
fn blit_onto(bitmap: &BlitBuffer, pixels: &mut Vec<u32>, width: usize, offset: (i32, i32))
    requires
        bitmap_filled(*bitmap),
        blittable(width as nat, old(pixels)@.len(), *bitmap, offset),
        old(pixels)@.len() % (width as nat) == 0,
    ensures
        blitted(
            old(pixels)@,
            final(pixels)@,
            width as nat,
            old(pixels)@.len() / (width as nat),
            *bitmap,
            offset.0 as int,
            offset.1 as int,
        ),
{
    bitmap.blit(pixels, width, offset)
}

/// Blit a bitmap onto the frame buffer with its top left corner at
/// `position`. What falls outside the screen is left out. Returns whether
/// the bitmap was blitted: it is not, and the screen stays as it is,
/// where it is not `blittable`.
pub fn blit(buffer: &mut PixelBuffer, bitmap: &BlitBuffer, position: (i32, i32)) -> (drawn: bool)
    requires
        well_formed(*old(buffer)),
        bitmap_filled(*bitmap),
    ensures
        well_formed(*final(buffer)),
        buffer_width(*final(buffer)) == buffer_width(*old(buffer)),
        buffer_height(*final(buffer)) == buffer_height(*old(buffer)),
        drawn <==> blittable(
            buffer_width(*old(buffer)),
            buffer_pixels(*old(buffer)).len(),
            *bitmap,
            position,
        ),
        drawn ==> blitted(
            buffer_pixels(*old(buffer)),
            buffer_pixels(*final(buffer)),
            buffer_width(*old(buffer)),
            buffer_height(*old(buffer)),
            *bitmap,
            position.0 as int,
            position.1 as int,
        ),
        !drawn ==> buffer_pixels(*final(buffer)) == buffer_pixels(*old(buffer)),
{
    let width = width_of(buffer);
    let ghost height = buffer_height(*buffer);
    let size = size_of(bitmap);
    let pixels = pixels_mut(buffer);
    let len = pixels.len();
    if width == 0 || width > i32::MAX as usize || len > i32::MAX as usize || position.0 as i64
        + size.0 as i64 > i32::MAX as i64 || position.1 as i64 + size.1 as i64 > i32::MAX as i64 {
        return false;
    }
    proof {
        assert(len == width * height);
        assert((width * height) / (width as int) == height && (width * height) % (width as int)
            == 0) by (nonlinear_arith)
            requires
                0 < width,
                0 <= height,
        ;
    }
    blit_onto(bitmap, pixels, width, position);
    true
}

/// Clipping: a blit at any position keeps the buffer's size and changes
/// the screen nowhere but under the bitmap.
pub proof fn lemma_blit_clipped(
    before: Seq<u32>,
    after: Seq<u32>,
    screen_width: nat,
    screen_height: nat,
    bitmap: BlitBuffer,
    x: int,
    y: int,
)
    requires
        blitted(before, after, screen_width, screen_height, bitmap, x, y),
    ensures
        after.len() == before.len(),
        forall|px: int, py: int|
            0 <= px < screen_width && 0 <= py < screen_height && #[trigger] pixel_at(
                after,
                screen_width,
                px,
                py,
            ) != pixel_at(before, screen_width, px, py) ==> x <= px < x + bitmap_width(bitmap) && y
                <= py < y + bitmap_height(bitmap),
{
}

/// Transparency: a pixel of the key colour leaves the three colour bytes
/// of the screen as they are, any other pixel replaces them by its own,
/// and either way the top byte of the screen is set.
pub proof fn lemma_blit_pixel(before: u32, pixel: u32, key: u32)
    ensures
        blit_pixel(before, bitmap_entry(pixel, key)) == if opaque_color(pixel) == opaque_color(
            key,
        ) {
            opaque_color(before)
        } else {
            opaque_color(pixel)
        },
{
    assert(before & 0xFFFF_FFFFu32 | 0xFF00_0000u32 == before | 0xFF00_0000u32) by (bit_vector);
    assert(before & 0xFF00_0000u32 | (pixel | 0xFF00_0000u32) == pixel | 0xFF00_0000u32)
        by (bit_vector);
}

} // verus!
