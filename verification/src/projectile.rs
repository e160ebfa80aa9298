//! Laser beams: the colour of a beam as it fades out.

use vstd::prelude::*;

verus! {

/// The colour a laser beam is shot in.
pub const LASER_COLOR: u32 = 0xFF_FF_FF;

/// The colour of a beam at a brightness level: the level is the blue
/// byte, and its low four bits are the red and the green byte.
pub open spec fn fade_color(level: u8) -> u32 {
    ((level % 16) * 0x1_0000 + (level % 16) * 0x100 + level) as u32
}

/// The red, green and blue byte of a colour.
pub open spec fn channels(color: u32) -> (int, int, int) {
    (
        (color as int / 0x1_0000) % 0x100,
        (color as int / 0x100) % 0x100,
        color as int % 0x100,
    )
}

/// Fades the laser beams.
pub struct LaserLifetimeSystem;

impl LaserLifetimeSystem {
    /// The colour of a beam whose remaining lifetime gives the brightness
    /// `level`.
    pub fn run(&mut self, level: u8) -> (color: u32)
        ensures
            color == fade_color(level),
    {
        let color_byte = level as u32;
        assert((color_byte & 0xF) << 16 | (color_byte & 0xF) << 8 | color_byte == (color_byte % 16)
            * 0x1_0000 + (color_byte % 16) * 0x100 + color_byte) by (bit_vector)
            requires
                color_byte < 256,
        ;
        (color_byte & 0xF) << 16 | (color_byte & 0xF) << 8 | color_byte
    }
}

/// The blue byte of a faded colour is the brightness level itself; the
/// red and the green byte are its low four bits; nothing stands above
/// the three bytes.
pub proof fn lemma_fade_channels(level: u8)
    ensures
        channels(fade_color(level)) == ((level % 16) as int, (level % 16) as int, level as int),
        fade_color(level) < 0x10_0000,
{
}

} // verus!
