//! The rockets' looks: the small rockets that drift about, and the
//! player's rocket.

use vstd::prelude::*;
use sprite_gen::Options;
use crate::sprite::MaskValue::{Body1, Body2, Empty, Solid};
use crate::sprite::{loadable, mirrors_x, mirrors_y, Blueprint, MaskValue, SpriteOptions};

verus! {

/// The left half of a small rocket, six values a row.
pub const SMALL_ROCKET_MASK: [MaskValue; 72] = [
    Empty, Empty, Empty, Empty, Empty, Empty,
    Empty, Empty, Empty, Empty, Body1, Body1,
    Empty, Empty, Empty, Empty, Body1, Solid,
    Empty, Empty, Empty, Empty, Body1, Solid,
    Empty, Empty, Empty, Body1, Body1, Solid,
    Empty, Empty, Body1, Body1, Body2, Solid,
    Empty, Empty, Body1, Body2, Body2, Solid,
    Empty, Body1, Body1, Body2, Body2, Solid,
    Empty, Body1, Body2, Body2, Body2, Solid,
    Empty, Body1, Body2, Body2, Body1, Solid,
    Empty, Body1, Body1, Body1, Body1, Body1,
    Empty, Body1, Body1, Empty, Body1, Body1,
];

/// The left half of the player's rocket, eleven values a row.
pub const ROCKET_MASK: [MaskValue; 264] = [
    Empty, Empty, Empty, Empty, Empty, Empty, Empty, Empty, Empty, Empty, Empty,
    Empty, Empty, Empty, Empty, Empty, Empty, Empty, Empty, Empty, Body1, Body1,
    Empty, Empty, Empty, Empty, Empty, Empty, Empty, Empty, Empty, Body1, Body1,
    Empty, Empty, Empty, Empty, Empty, Empty, Empty, Empty, Body1, Body1, Solid,
    Empty, Empty, Empty, Empty, Empty, Empty, Empty, Body1, Body1, Body1, Solid,
    Empty, Empty, Empty, Empty, Empty, Empty, Empty, Body1, Body1, Body1, Solid,
    Empty, Empty, Empty, Empty, Empty, Empty, Body1, Body1, Body1, Body1, Solid,
    Empty, Empty, Empty, Empty, Empty, Empty, Body1, Body1, Body1, Body2, Solid,
    Empty, Empty, Empty, Empty, Empty, Body1, Body1, Body1, Body1, Body2, Solid,
    Empty, Empty, Empty, Empty, Empty, Body1, Body1, Body1, Body2, Body2, Body2,
    Empty, Empty, Empty, Empty, Empty, Body1, Body1, Body2, Body2, Body2, Body2,
    Empty, Empty, Empty, Empty, Empty, Body1, Body1, Solid, Body2, Body2, Body2,
    Empty, Empty, Body1, Empty, Empty, Body1, Body1, Solid, Body2, Body2, Body2,
    Empty, Empty, Body1, Body1, Body1, Body1, Body2, Solid, Body2, Body2, Body1,
    Empty, Body1, Body2, Body2, Body1, Body1, Body2, Solid, Body2, Body2, Body1,
    Empty, Body1, Solid, Body2, Body2, Body1, Body1, Body2, Body2, Body2, Body1,
    Empty, Body1, Body2, Body1, Body2, Body2, Body2, Body2, Body2, Body2, Body1,
    Empty, Body1, Body1, Empty, Body1, Body1, Body1, Body2, Body2, Body2, Body1,
    Empty, Body1, Body1, Empty, Empty, Body1, Body1, Body1, Body2, Body1, Body1,
    Empty, Body1, Body1, Empty, Empty, Empty, Body1, Body1, Body2, Body2, Body2,
    Empty, Empty, Empty, Empty, Empty, Body1, Body1, Body1, Body1, Body1, Body1,
    Empty, Empty, Empty, Empty, Empty, Body1, Body1, Body1, Body1, Body1, Body1,
    Empty, Empty, Empty, Empty, Empty, Empty, Empty, Empty, Empty, Empty, Empty,
    Empty, Empty, Empty, Empty, Empty, Empty, Empty, Empty, Empty, Empty, Empty,
];

/// How the sprite of a small rocket is made: mirrored along the X axis,
/// in colour, with sixteen rotated variants.
pub fn small_rocket_blueprint() -> (blueprint: Blueprint)
    ensures
        blueprint == (Blueprint {
            width: 6,
            height: 12,
            options: SpriteOptions {
                mirror_x: true,
                mirror_y: false,
                colored: true,
                edge_brightness: 30,
                color_variations: 20,
                brightness_noise: 30,
                saturation: 50,
            },
            rotations: 16,
        }),
        blueprint.fits(SMALL_ROCKET_MASK@.len()),
{
    assert(SMALL_ROCKET_MASK@.len() == 72);
    assert(6 * 12 == 72) by (nonlinear_arith);
    Blueprint {
        width: 6,
        height: 12,
        options: SpriteOptions {
            mirror_x: true,
            mirror_y: false,
            colored: true,
            edge_brightness: 30,
            color_variations: 20,
            brightness_noise: 30,
            saturation: 50,
        },
        rotations: 16,
    }
}

/// How the sprite of the player's rocket is made: mirrored along the X
/// axis, grey with a noisy brightness, with forty-five rotated variants.
pub fn rocket_blueprint() -> (blueprint: Blueprint)
    ensures
        blueprint == (Blueprint {
            width: 11,
            height: 24,
            options: SpriteOptions {
                mirror_x: true,
                mirror_y: false,
                colored: true,
                edge_brightness: 14,
                color_variations: 20,
                brightness_noise: 100,
                saturation: 0,
            },
            rotations: 45,
        }),
        blueprint.fits(ROCKET_MASK@.len()),
{
    assert(ROCKET_MASK@.len() == 264);
    assert(11 * 24 == 264) by (nonlinear_arith);
    Blueprint {
        width: 11,
        height: 24,
        options: SpriteOptions {
            mirror_x: true,
            mirror_y: false,
            colored: true,
            edge_brightness: 14,
            color_variations: 20,
            brightness_noise: 100,
            saturation: 0,
        },
        rotations: 45,
    }
}

/// Both rocket masks can be loaded with any generator options that mirror
/// as their blueprints say.
pub proof fn lemma_rockets_loadable(options: Options)
    requires
        mirrors_x(options),
        !mirrors_y(options),
    ensures
        loadable(SMALL_ROCKET_MASK@.len(), 6, options, 16),
        loadable(ROCKET_MASK@.len(), 11, options, 45),
{
    assert(SMALL_ROCKET_MASK@.len() == 72);
    assert(ROCKET_MASK@.len() == 264);
    assert(12 * 12 == 144 && 22 * 24 == 528) by (nonlinear_arith);
    assert((12 + 12 + 2) * (12 + 12 + 2) == 676 && (22 + 24 + 2) * (22 + 24 + 2) == 2304)
        by (nonlinear_arith);
}

} // verus!
