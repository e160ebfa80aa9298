//! Which of its rotated variants a sprite shows at an angle.

use vstd::prelude::*;

verus! {

/// An angle in whole degrees brought into `0..360`.
pub open spec fn wrapped_degrees(angle: int) -> int {
    angle % 360
}

/// The integer nearest to `a / b`; a half is rounded up.
pub open spec fn rounded_div(a: int, b: int) -> int {
    (2 * a + b) / (2 * b)
}

/// The variant, of `variants` evenly spaced over the full turn, that is
/// nearest to an angle: the angle's share of the turn in steps of one
/// variant, rounded, a half up. The variant after the last is the first
/// again.
pub open spec fn variant_index(angle: int, variants: int) -> int {
    ((2 * (wrapped_degrees(angle) * variants) + 360) / 720) % variants
}

/// The smallest whole angle, in degrees, at or after the direction of a
/// variant.
pub open spec fn variant_degrees(index: int, variants: int) -> int {
    (360 * index + variants - 1) / variants
}

/// Points the sprites the way their entities are rotated.
pub struct SpriteRotationSystem;

impl SpriteRotationSystem {
    /// The variant to show for a sprite with `variants` variants at an
    /// angle in degrees. A sprite without variants counts as one with a
    /// single variant.
    pub fn run(&mut self, degrees: i16, variants: u16) -> (index: u16)
        ensures
            variants == 0 ==> index == 0,
            variants > 0 ==> index == variant_index(degrees as int, variants as int),
            variants > 0 ==> index < variants,
    {
        if variants == 0 {
            return 0;
        }
        let shifted = (degrees as i32 + 92 * 360) as u32;
        let wrapped = shifted % 360;
        assert(wrapped == wrapped_degrees(degrees as int)) by {
            vstd::arithmetic::div_mod::lemma_mod_multiples_vanish(92, degrees as int, 360);
            assert(360 * 92 + degrees as int == shifted);
        }
        let count = variants as u32;
        assert(wrapped * count <= 359 * 65535) by (nonlinear_arith)
            requires
                wrapped <= 359,
                count <= 65535,
        ;
        let nearest = (2 * (wrapped * count) + 360) / 720;
        let index = nearest % count;
        index as u16
    }

    /// The angle in degrees, from 0 to 360, that stands for a variant.
    pub fn variant_angle(index: u16, variants: u16) -> (degrees: i16)
        requires
            index < variants,
        ensures
            degrees == variant_degrees(index as int, variants as int),
            0 <= degrees <= 360,
    {
        let count = variants as u32;
        let numerator = 360 * (index as u32) + count - 1;
        let degrees = numerator / count;
        assert(degrees <= 360) by (nonlinear_arith)
            requires
                degrees == numerator / count,
                numerator < 361 * count,
                count > 0,
        ;
        degrees as i16
    }
}

/// Rounding: `rounded_div(a, b)` is the integer nearest to `a / b`, at
/// most half a step away from it.
pub proof fn lemma_rounded_div_nearest(a: int, b: int)
    requires
        b > 0,
    ensures
        -b <= 2 * (a - b * rounded_div(a, b)) < b,
{
    vstd::arithmetic::div_mod::lemma_fundamental_div_mod(2 * a + b, 2 * b);
    vstd::arithmetic::div_mod::lemma_mod_bound(2 * a + b, 2 * b);
    let r = rounded_div(a, b);
    assert(2 * b * r == 2 * (b * r)) by (nonlinear_arith);
}

/// The chosen variant is the rounded share of the turn, taken round the
/// turn; it is one of the sprite's variants, and it is the same for angles
/// a full turn apart.
pub proof fn lemma_variant_index(angle: int, variants: int)
    requires
        variants > 0,
    ensures
        variant_index(angle, variants) == rounded_div(wrapped_degrees(angle) * variants, 360)
            % variants,
        0 <= variant_index(angle, variants) < variants,
        variant_index(angle + 360, variants) == variant_index(angle, variants),
        variant_index(0, variants) == 0,
{
    vstd::arithmetic::div_mod::lemma_mod_bound(
        rounded_div(wrapped_degrees(angle) * variants, 360),
        variants,
    );
    vstd::arithmetic::div_mod::lemma_mod_multiples_vanish(1, angle, 360);
    assert(wrapped_degrees(angle + 360) == wrapped_degrees(angle));
    assert(0 * variants == 0);
    vstd::arithmetic::div_mod::lemma_small_mod(0, variants as nat);
}

/// With at most 360 variants, the angle that stands for a variant lies in
/// that variant's own step of the turn: a store that takes the step an
/// angle falls into finds the variant again.
pub proof fn lemma_variant_angle_round_trip(index: int, variants: int)
    requires
        0 <= index < variants <= 360,
    ensures
        (variant_degrees(index, variants) * variants) / 360 == index,
{
    let d = variant_degrees(index, variants);
    vstd::arithmetic::div_mod::lemma_fundamental_div_mod(360 * index + variants - 1, variants);
    vstd::arithmetic::div_mod::lemma_mod_bound(360 * index + variants - 1, variants);
    assert(variants * d == d * variants) by (nonlinear_arith);
    assert(360 * index <= d * variants <= 360 * index + variants - 1);
    assert(360 * index <= d * variants < 360 * (index + 1));
    vstd::arithmetic::div_mod::lemma_div_is_ordered(360 * index, d * variants, 360);
    vstd::arithmetic::div_mod::lemma_div_multiples_vanish(index, 360);
    assert((d * variants) / 360 < index + 1) by {
        vstd::arithmetic::div_mod::lemma_fundamental_div_mod(d * variants, 360);
        vstd::arithmetic::div_mod::lemma_mod_bound(d * variants, 360);
    }
}

} // verus!
