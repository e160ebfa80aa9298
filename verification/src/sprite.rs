//! Sprites: generated from a mask, inverted, and loaded into the sprite
//! store with their rotations.

use vstd::prelude::*;
use specs_blit::blit::BlitBuffer;
use specs_blit::SpriteRef;
use sprite_gen::Options;

verus! {

#[verifier::external_type_specification]
#[verifier::external_body]
pub struct ExOptions(Options);

#[verifier::external_type_specification]
#[verifier::external_body]
pub struct ExBlitBuffer(BlitBuffer);

#[verifier::external_type_specification]
#[verifier::external_body]
pub struct ExSpriteRef(SpriteRef);

#[verifier::external_type_specification]
#[verifier::external_body]
pub struct ExError(anyhow::Error);

/// Whether generator options ask for a sprite mirrored along the X axis.
pub uninterp spec fn mirrors_x(options: Options) -> bool;

/// Whether generator options ask for a sprite mirrored along the Y axis.
pub uninterp spec fn mirrors_y(options: Options) -> bool;

/// The pixels that the generator makes of a mask, given as the codes of
/// its values, a mask width and options. The options hold the seed of
/// every random choice.
pub uninterp spec fn generated(codes: Seq<i8>, width: nat, options: Options) -> Seq<u32>;

/// The width in pixels of a bitmap.
pub uninterp spec fn bitmap_width(bitmap: BlitBuffer) -> int;

/// The height in pixels of a bitmap.
pub uninterp spec fn bitmap_height(bitmap: BlitBuffer) -> int;

/// The colour that a bitmap takes for transparent, as the bitmap holds
/// it: with the top byte set.
pub uninterp spec fn bitmap_key(bitmap: BlitBuffer) -> u32;

/// What a bitmap holds for each of its pixels, row by row: a colour and a
/// mask. The mask says what a blit keeps of the screen under the pixel.
pub uninterp spec fn bitmap_entries(bitmap: BlitBuffer) -> Seq<(u32, u32)>;

/// The offsets, one for each rotated variant in turn, by which a loaded
/// sprite is moved so that the variant stays centred on the sprite.
pub uninterp spec fn variant_offsets(reference: SpriteRef) -> Seq<(i32, i32)>;

/// The offsets that the rotator gives to the variants of a bitmap rotated
/// `rotations` times round the full turn.
pub uninterp spec fn rotated_offsets(bitmap: BlitBuffer, rotations: u16) -> Seq<(i32, i32)>;

/// The colour that marks a transparent pixel of a sprite.
pub const TRANSPARENT: u32 = 0;

/// What the generator may make of one pixel of a mask.
#[derive(Clone, Copy, Debug, PartialEq, Eq)]
pub enum MaskValue {
    /// Always part of the outline.
    Solid,
    /// Always empty.
    Empty,
    /// Empty or body.
    Body1,
    /// Outline or body.
    Body2,
}

/// The number by which the generator knows a mask value.
pub open spec fn mask_code(value: MaskValue) -> i8 {
    match value {
        MaskValue::Solid => -1i8,
        MaskValue::Empty => 0i8,
        MaskValue::Body1 => 1i8,
        MaskValue::Body2 => 2i8,
    }
}

impl MaskValue {
    pub fn code(&self) -> (code: i8)
        ensures
            code == mask_code(*self),
    {
        match self {
            MaskValue::Solid => -1,
            MaskValue::Empty => 0,
            MaskValue::Body1 => 1,
            MaskValue::Body2 => 2,
        }
    }
}

/// The options of the sprite generator. The four amounts are in
/// hundredths, from 0 to 100.
#[derive(Clone, Copy, Debug, PartialEq, Eq)]
pub struct SpriteOptions {
    /// Whether the sprite is mirrored along the X axis.
    pub mirror_x: bool,
    /// Whether the sprite is mirrored along the Y axis.
    pub mirror_y: bool,
    /// Whether the sprite is coloured, or black and white.
    pub colored: bool,
    pub edge_brightness: u8,
    pub color_variations: u8,
    pub brightness_noise: u8,
    pub saturation: u8,
}

/// How the sprite of one kind of entity is made.
#[derive(Clone, Copy, Debug, PartialEq, Eq)]
pub struct Blueprint {
    /// Width of the mask.
    pub width: usize,
    /// Height of the mask.
    pub height: usize,
    pub options: SpriteOptions,
    /// How many rotated variants are loaded.
    pub rotations: u16,
}

impl Blueprint {
    /// Whether a mask of `mask_len` values fills the blueprint's
    /// rectangle.
    pub open spec fn fits(self, mask_len: nat) -> bool {
        mask_len == self.width * self.height
    }
}

/// Why a sprite could not be made.
#[derive(Debug)]
pub enum SpriteError {
    /// The mask and its width give no sprite that can be loaded.
    Shape,
    /// The sprite store refused the sprite, with its reason.
    Load(String),
}

/// The width of the sprite made of a mask: twice the mask's width if the
/// sprite is mirrored along the X axis.
pub open spec fn sprite_width(width: nat, options: Options) -> nat {
    if mirrors_x(options) {
        2 * width
    } else {
        width
    }
}

/// The height of the sprite made of a mask: the number of full rows of
/// the mask, doubled if the sprite is mirrored along the Y axis.
pub open spec fn sprite_height(mask_len: nat, width: nat, options: Options) -> nat {
    if mirrors_y(options) {
        2 * (mask_len / width)
    } else {
        mask_len / width
    }
}

/// How many pixels the generator returns: without mirroring one for each
/// mask value, else those of the mirrored rectangle.
pub open spec fn generated_len(mask_len: nat, width: nat, options: Options) -> nat {
    if mirrors_x(options) || mirrors_y(options) {
        sprite_width(width, options) * sprite_height(mask_len, width, options)
    } else {
        mask_len
    }
}

/// Whether a mask of `mask_len` values and the given width can be made
/// into a sprite: the width is not zero, the mask is a full rectangle
/// unless it is mirrored (then values after the last full row are left
/// out), and the generator's buffers, of up to sixteen bytes for each
/// value, fit an allocation.
pub open spec fn paintable(mask_len: nat, width: nat, options: Options) -> bool {
    &&& width > 0
    &&& mirrors_x(options) || mirrors_y(options) || mask_len % width == 0
    &&& 16 * (mask_len + width) <= isize::MAX
}

/// Whether a bitmap of the given size can be made: its width and its
/// number of pixels are 32-bit signed numbers, as the bitmap counts them,
/// and its entries of eight bytes fit an allocation.
pub open spec fn bitmap_fits(width: int, height: int) -> bool {
    &&& 0 < width <= i32::MAX
    &&& 0 <= height
    &&& width * height <= i32::MAX
    &&& 8 * (width * height) <= isize::MAX
}

/// Whether a bitmap of the given size can be rotated: it has at least two
/// by two pixels; eight times as wide and as high it fits an allocation;
/// and so does, as a bitmap, the largest rotated variant, no side of which
/// is longer than the two sides of the bitmap together and two pixels.
pub open spec fn rotation_fits(width: int, height: int) -> bool {
    &&& width >= 2
    &&& height >= 2
    &&& 256 * (width * height) <= isize::MAX
    &&& (width + height + 2) * (width + height + 2) <= i32::MAX
    &&& 8 * ((width + height + 2) * (width + height + 2)) <= isize::MAX
}

/// Whether the sprite of a mask can be made into a bitmap.
pub open spec fn drawable(mask_len: nat, width: nat, options: Options) -> bool {
    &&& paintable(mask_len, width, options)
    &&& bitmap_fits(
        sprite_width(width, options) as int,
        sprite_height(mask_len, width, options) as int,
    )
}

/// Whether the sprite can also be loaded with `rotations` rotated
/// variants: more than one variant asks for a bitmap that can be rotated.
pub open spec fn loadable(mask_len: nat, width: nat, options: Options, rotations: u16) -> bool {
    &&& drawable(mask_len, width, options)
    &&& rotations <= 1 || rotation_fits(
        sprite_width(width, options) as int,
        sprite_height(mask_len, width, options) as int,
    )
}

/// A colour as a bitmap holds it: with the top byte set.
pub open spec fn opaque_color(color: u32) -> u32 {
    color | 0xFF00_0000u32
}

/// What a bitmap holds for a pixel: for one of the key colour a mask that
/// keeps the screen, for any other its colour and a mask that keeps the
/// top byte only.
pub open spec fn bitmap_entry(pixel: u32, key: u32) -> (u32, u32) {
    if opaque_color(pixel) == opaque_color(key) {
        (0xFF00_0000u32, 0xFFFF_FFFFu32)
    } else {
        (opaque_color(pixel), 0xFF00_0000u32)
    }
}

/// What a bitmap holds for a row of pixels.
pub open spec fn entries_of(pixels: Seq<u32>, key: u32) -> Seq<(u32, u32)> {
    Seq::new(pixels.len(), |i: int| bitmap_entry(pixels[i], key))
}

/// Whether a bitmap is the one made of the given pixels, width and key
/// colour.
pub open spec fn is_bitmap_of(bitmap: BlitBuffer, pixels: Seq<u32>, width: int, key: u32) -> bool {
    &&& bitmap_width(bitmap) == width
    &&& bitmap_height(bitmap) == (pixels.len() as int) / width
    &&& bitmap_key(bitmap) == opaque_color(key)
    &&& bitmap_entries(bitmap) == entries_of(pixels, key)
}

/// A bitmap holds one entry for each position of its rectangle, which
/// `bitmap_fits`.
pub open spec fn bitmap_filled(bitmap: BlitBuffer) -> bool {
    &&& bitmap_fits(bitmap_width(bitmap), bitmap_height(bitmap))
    &&& bitmap_entries(bitmap).len() == bitmap_width(bitmap) * bitmap_height(bitmap)
}

/// How many variants a sprite is loaded with: one for each rotation asked
/// for, and one if none is asked for.
pub open spec fn variant_count(rotations: u16) -> nat {
    if rotations == 0 {
        1
    } else {
        rotations as nat
    }
}

/// Whether a reference is that of a sprite loaded from the bitmap of the
/// given pixels, width, height and key colour, with `rotations` rotations.
pub open spec fn loaded_as(
    reference: SpriteRef,
    pixels: Seq<u32>,
    width: int,
    height: int,
    key: u32,
    rotations: u16,
) -> bool {
    exists|bitmap: BlitBuffer| #[trigger]
        is_bitmap_of(bitmap, pixels, width, key) && bitmap_height(bitmap) == height
            && bitmap_filled(bitmap) && variant_offsets(reference) == rotated_offsets(
            bitmap,
            rotations,
        )
}

/// A colour with every bit inverted.
pub open spec fn inverted(color: u32) -> u32 {
    color ^ 0xFFFF_FFFFu32
}

/// The field `mirror_x` of `sprite_gen::Options`.
#[verifier::external_body]
fn mirror_x_of(options: &Options) -> (mirror: bool)
    ensures
        mirror == mirrors_x(*options),
{
    options.mirror_x
}

/// The field `mirror_y` of `sprite_gen::Options`.
#[verifier::external_body]
fn mirror_y_of(options: &Options) -> (mirror: bool)
    ensures
        mirror == mirrors_y(*options),
{
    options.mirror_y
}

/// `sprite_gen::gen_sprite`: the pixels generated from the mask codes, and
/// how many they are. The width must not be zero, and the mirrored
/// rectangle, of up to four pixels of four bytes for each code, must fit
/// an allocation.
#[verifier::external_body]
fn gen_sprite(codes: &Vec<i8>, width: usize, options: Options) -> (pixels: Vec<u32>)
    requires
        width > 0,
        16 * codes@.len() + 16 * width <= isize::MAX,
    ensures
        pixels@ == generated(codes@, width as nat, options),
        pixels@.len() == generated_len(codes@.len(), width as nat, options),
{
    sprite_gen::gen_sprite(codes, width, options)
}

/// `BlitBuffer::from_buffer`: the bitmap of the given pixels, width and
/// key colour. Its height is the number of rows the pixels fill, which
/// they must fill. It counts the pixels in 32 bits, and holds eight bytes
/// for each.
#[verifier::external_body]
fn blit_buffer(pixels: &Vec<u32>, width: i32, mask_color: u32) -> (bitmap: BlitBuffer)
    requires
        width > 0,
        pixels@.len() <= i32::MAX,
        8 * pixels@.len() <= isize::MAX,
        pixels@.len() % (width as nat) == 0,
    ensures
        bitmap_width(bitmap) == width,
        bitmap_height(bitmap) == pixels@.len() / (width as nat),
        bitmap_key(bitmap) == opaque_color(mask_color),
        bitmap_entries(bitmap) == entries_of(pixels@, mask_color),
{
    BlitBuffer::from_buffer(pixels, width, mask_color)
}

/// `BlitBuffer::size`: the width and the height of the bitmap.
#[verifier::external_body]
pub(crate) fn size_of(bitmap: &BlitBuffer) -> (size: (i32, i32))
    ensures
        size.0 == bitmap_width(*bitmap),
        size.1 == bitmap_height(*bitmap),
{
    bitmap.size()
}

/// `specs_blit::load_rotations`: rotates the bitmap into its variants,
/// puts them into the sprite store and returns the reference to them.
/// The rotator refuses only pixels that do not fill their rows, so a
/// filled bitmap is always loaded. The reference holds one offset for each
/// variant, as the rotator gives them; where the variants stand in the
/// store, which the whole process shares, is not said. A variant that is
/// really rotated needs a bitmap that `rotation_fits`: the rotator reads
/// the neighbours of each pixel, and rotates a copy that is eight times as
/// wide and as high.
#[verifier::external_body]
fn load_rotations(bitmap: BlitBuffer, rotations: u16) -> (loaded: Result<SpriteRef, anyhow::Error>)
    requires
        bitmap_filled(bitmap),
        rotations <= 1 || rotation_fits(bitmap_width(bitmap), bitmap_height(bitmap)),
    ensures
        loaded is Ok,
        loaded matches Ok(reference) ==> variant_offsets(reference) == rotated_offsets(
            bitmap,
            rotations,
        ) && variant_offsets(reference).len() == variant_count(rotations),
{
    specs_blit::load_rotations(bitmap, rotations)
}

/// The text of an `anyhow::Error`, as its `Display` gives it.
#[verifier::external_body]
fn error_text(error: &anyhow::Error) -> String {
    format!("{}", error)
}

/// The codes of the values of a mask, in the order of the mask.
pub open spec fn codes_of(mask: Seq<MaskValue>) -> Seq<i8> {
    Seq::new(mask.len(), |i: int| mask_code(mask[i]))
}

/// A pixel buffer with every colour inverted.
pub open spec fn inverse_of(pixels: Seq<u32>) -> Seq<u32> {
    Seq::new(pixels.len(), |i: int| inverted(pixels[i]))
}

/// The codes of the values of a mask.
pub fn mask_codes(mask: &[MaskValue]) -> (codes: Vec<i8>)
    ensures
        codes@ == codes_of(mask@),
{
    let mut codes: Vec<i8> = Vec::new();
    let mut i: usize = 0;
    while i < mask.len()
        invariant
            i <= mask.len(),
            codes@.len() == i,
            forall|k: int| 0 <= k < i ==> codes@[k] == mask_code(mask@[k]),
        decreases mask.len() - i,
    {
        codes.push(mask[i].code());
        i = i + 1;
    }
    codes
}

/// Invert every colour of a pixel buffer.
pub fn invert_colors(pixels: Vec<u32>) -> (inverse: Vec<u32>)
    ensures
        inverse@ == inverse_of(pixels@),
{
    let mut inverse = pixels;
    let mut i: usize = 0;
    while i < inverse.len()
        invariant
            i <= inverse.len(),
            inverse@.len() == pixels@.len(),
            forall|k: int| 0 <= k < i ==> inverse@[k] == inverted(pixels@[k]),
            forall|k: int| i <= k < inverse@.len() ==> inverse@[k] == pixels@[k],
        decreases inverse.len() - i,
    {
        let color = inverse[i];
        inverse[i] = color ^ 0xFFFF_FFFF;
        i = i + 1;
    }
    inverse
}

/// The pixels of the sprite made of a mask: what the generator makes of
/// it, with every colour inverted. Nothing is made of a mask that is not
/// `paintable`.
pub fn sprite_pixels(width: usize, options: Options, mask: &[MaskValue]) -> (pixels: Option<
    Vec<u32>,
>)
    ensures
        pixels.is_some() <==> paintable(mask@.len(), width as nat, options),
        pixels matches Some(p) ==> {
            &&& p@ == inverse_of(generated(codes_of(mask@), width as nat, options))
            &&& p@.len() == sprite_width(width as nat, options) * sprite_height(
                mask@.len(),
                width as nat,
                options,
            )
        },
{
    if width == 0 {
        return None;
    }
    let mirror_x = mirror_x_of(&options);
    let mirror_y = mirror_y_of(&options);
    let mirrored = mirror_x || mirror_y;
    if !mirrored && mask.len() % width != 0 {
        return None;
    }
    let limit = (isize::MAX as usize) / 16;
    if mask.len() > limit || width > limit - mask.len() {
        return None;
    }
    proof {
        let len = mask@.len() as int;
        let w = width as int;
        vstd::arithmetic::div_mod::lemma_fundamental_div_mod(len, w);
        if !mirrored {
            assert(len == w * (len / w));
        }
    }
    let codes = mask_codes(mask);
    let pixels = gen_sprite(&codes, width, options);
    Some(invert_colors(pixels))
}

/// What `generate` returns for what the sprite store answered: the
/// reference as it is, and the store's error with its text.
pub fn loaded_sprite(loaded: Result<SpriteRef, anyhow::Error>) -> (sprite: Result<
    SpriteRef,
    SpriteError,
>)
    ensures
        loaded matches Ok(reference) ==> sprite == Ok::<SpriteRef, SpriteError>(reference),
        loaded is Err ==> sprite matches Err(SpriteError::Load(_)),
{
    match loaded {
        Ok(reference) => Ok(reference),
        Err(error) => Err(SpriteError::Load(error_text(&error))),
    }
}

/// The bitmap of the sprite made of a mask: of its `sprite_pixels`, as
/// wide as the sprite, with black for transparent. Nothing is made of a
/// mask that is not `drawable`.
pub fn sprite_bitmap(width: usize, options: Options, mask: &[MaskValue]) -> (bitmap: Option<
    BlitBuffer,
>)
    ensures
        bitmap.is_some() <==> drawable(mask@.len(), width as nat, options),
        bitmap matches Some(b) ==> {
            &&& is_bitmap_of(
                b,
                inverse_of(generated(codes_of(mask@), width as nat, options)),
                sprite_width(width as nat, options) as int,
                TRANSPARENT,
            )
            &&& bitmap_width(b) == sprite_width(width as nat, options)
            &&& bitmap_height(b) == sprite_height(mask@.len(), width as nat, options)
            &&& bitmap_filled(b)
        },
{
    let pixels = match sprite_pixels(width, options, mask) {
        Some(pixels) => pixels,
        None => {
            return None;
        },
    };
    let buffer_width = if mirror_x_of(&options) {
        width * 2
    } else {
        width
    };
    let count = pixels.len();
    proof {
        let sw = sprite_width(width as nat, options) as int;
        let sh = sprite_height(mask@.len(), width as nat, options) as int;
        assert((sw * sh) / sw == sh && (sw * sh) % sw == 0) by (nonlinear_arith)
            requires
                0 < sw,
                0 <= sh,
        ;
        assert(count == sw * sh);
    }
    if buffer_width > i32::MAX as usize || count > i32::MAX as usize || count > (isize::MAX
        as usize) / 8 {
        return None;
    }
    Some(blit_buffer(&pixels, buffer_width as i32, TRANSPARENT))
}

/// Whether a bitmap of the given size `rotation_fits`.
fn can_rotate(width: i32, height: i32) -> (fits: bool)
    requires
        bitmap_fits(width as int, height as int),
    ensures
        fits == rotation_fits(width as int, height as int),
{
    if width < 2 || height < 2 {
        return false;
    }
    let area = width as u64 * height as u64;
    let sides = width as u64 + height as u64 + 2;
    if sides > 46340 {
        assert(sides * sides > i32::MAX) by (nonlinear_arith)
            requires
                sides >= 46341,
        ;
        return false;
    }
    assert(sides * sides <= 46340 * 46340) by (nonlinear_arith)
        requires
            sides <= 46340,
    ;
    let square = sides * sides;
    let room = isize::MAX as u64;
    area <= room / 256 && square <= i32::MAX as u64 && square <= room / 8
}

/// Generate a sprite from a mask and load it into the sprite store with
/// its rotated variants. A mask that is `loadable` is loaded: the
/// reference is that of the sprite's bitmap, of `sprite_width` by
/// `sprite_height` pixels with black for transparent, loaded with one
/// variant for each rotation. A mask that is not gives
/// `SpriteError::Shape`: it has no rows of its width, or more values than
/// the generator, the bitmap or the rotator can count.
pub fn generate(width: usize, options: Options, mask: &[MaskValue], rotations: u16) -> (sprite:
    Result<SpriteRef, SpriteError>)
    ensures
        sprite is Ok <==> loadable(mask@.len(), width as nat, options, rotations),
        sprite is Err ==> sprite matches Err(SpriteError::Shape),
        sprite matches Ok(reference) ==> {
            &&& loaded_as(
                reference,
                inverse_of(generated(codes_of(mask@), width as nat, options)),
                sprite_width(width as nat, options) as int,
                sprite_height(mask@.len(), width as nat, options) as int,
                TRANSPARENT,
                rotations,
            )
            &&& variant_offsets(reference).len() == variant_count(rotations)
        },
{
    let bitmap = match sprite_bitmap(width, options, mask) {
        Some(bitmap) => bitmap,
        None => {
            return Err(SpriteError::Shape);
        },
    };
    let size = size_of(&bitmap);
    if rotations > 1 && !can_rotate(size.0, size.1) {
        return Err(SpriteError::Shape);
    }
    let ghost handed = bitmap;
    let sprite = loaded_sprite(load_rotations(bitmap, rotations));
    proof {
        assert(is_bitmap_of(
            handed,
            inverse_of(generated(codes_of(mask@), width as nat, options)),
            sprite_width(width as nat, options) as int,
            TRANSPARENT,
        ));
    }
    sprite
}

/// Inverting a colour twice gives it back, and only white inverts to the
/// transparent black.
pub proof fn lemma_inverted(color: u32)
    ensures
        inverted(inverted(color)) == color,
        inverted(color) == TRANSPARENT <==> color == 0xFFFF_FFFFu32,
        inverted(color) == 0xFFFF_FFFFu32 - color,
{
    assert((color ^ 0xFFFF_FFFFu32) ^ 0xFFFF_FFFFu32 == color) by (bit_vector);
    assert((color ^ 0xFFFF_FFFFu32) == 0u32 <==> color == 0xFFFF_FFFFu32) by (bit_vector);
    assert((color ^ 0xFFFF_FFFFu32) == 0xFFFF_FFFFu32 - color) by (bit_vector);
}

} // verus!
