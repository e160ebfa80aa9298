//! The asteroids' looks.

use vstd::prelude::*;
use sprite_gen::Options;
use crate::sprite::MaskValue::{Body1, Empty, Solid};
use crate::sprite::{loadable, mirrors_x, mirrors_y, Blueprint, MaskValue, SpriteOptions};

verus! {

/// The mask of an asteroid, eleven values a row.
pub const ASTEROID_MASK: [MaskValue; 121] = [
    Empty, Empty, Empty, Empty, Empty, Empty, Empty, Empty, Empty, Empty, Empty,
    Empty, Empty, Empty, Empty, Body1, Body1, Body1, Empty, Empty, Empty, Empty,
    Empty, Empty, Empty, Body1, Body1, Body1, Body1, Body1, Empty, Empty, Empty,
    Empty, Empty, Body1, Body1, Body1, Solid, Body1, Body1, Body1, Empty, Empty,
    Empty, Body1, Body1, Body1, Solid, Solid, Solid, Body1, Body1, Body1, Empty,
    Empty, Body1, Body1, Solid, Solid, Solid, Solid, Solid, Body1, Body1, Empty,
    Empty, Body1, Body1, Body1, Solid, Solid, Solid, Body1, Body1, Body1, Empty,
    Empty, Empty, Body1, Body1, Body1, Solid, Body1, Body1, Body1, Empty, Empty,
    Empty, Empty, Empty, Body1, Body1, Body1, Body1, Body1, Empty, Empty, Empty,
    Empty, Empty, Empty, Empty, Body1, Body1, Body1, Empty, Empty, Empty, Empty,
    Empty, Empty, Empty, Empty, Empty, Empty, Empty, Empty, Empty, Empty, Empty,
];

/// How the sprite of an asteroid is made: from the mask as it is, in
/// colour, shown at one angle only.
pub fn blueprint() -> (blueprint: Blueprint)
    ensures
        blueprint == (Blueprint {
            width: 11,
            height: 11,
            options: SpriteOptions {
                mirror_x: false,
                mirror_y: false,
                colored: true,
                edge_brightness: 30,
                color_variations: 20,
                brightness_noise: 30,
                saturation: 50,
            },
            rotations: 1,
        }),
        blueprint.fits(ASTEROID_MASK@.len()),
{
    assert(ASTEROID_MASK@.len() == 121);
    assert(11 * 11 == 121) by (nonlinear_arith);
    Blueprint {
        width: 11,
        height: 11,
        options: SpriteOptions {
            mirror_x: false,
            mirror_y: false,
            colored: true,
            edge_brightness: 30,
            color_variations: 20,
            brightness_noise: 30,
            saturation: 50,
        },
        rotations: 1,
    }
}

/// The asteroid's mask can be loaded with any generator options that
/// mirror as its blueprint says.
pub proof fn lemma_asteroid_loadable(options: Options)
    requires
        !mirrors_x(options),
        !mirrors_y(options),
    ensures
        loadable(ASTEROID_MASK@.len(), 11, options, 1),
{
    assert(ASTEROID_MASK@.len() == 121);
    assert(11 * 11 == 121) by (nonlinear_arith);
}

} // verus!
