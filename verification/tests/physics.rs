use rocket_game::physics::SpriteRotationSystem;

fn rounded(degrees: i16, variants: u16) -> u16 {
    let wrapped = (degrees as i32).rem_euclid(360);
    let steps = ((wrapped * variants as i32) as f64 / 360.0).round() as u32;
    (steps % variants as u32) as u16
}

#[test]
fn variant_of_some_angles() {
    let mut system = SpriteRotationSystem;
    assert_eq!(system.run(0, 16), 0);
    assert_eq!(system.run(90, 16), 4);
    assert_eq!(system.run(180, 16), 8);
    assert_eq!(system.run(270, 16), 12);
    // 11 / 22.5 is below a half, 12 / 22.5 above.
    assert_eq!(system.run(11, 16), 0);
    assert_eq!(system.run(12, 16), 1);
    // 90 degrees of 45 variants: 11.25 steps.
    assert_eq!(system.run(90, 45), 11);
    // Exactly half a step is rounded up: 45 degrees of 4 variants.
    assert_eq!(system.run(45, 4), 1);
    assert_eq!(system.run(135, 4), 2);
}

#[test]
fn variant_wraps_around() {
    let mut system = SpriteRotationSystem;
    // The step after the last variant is the first variant.
    assert_eq!(system.run(359, 16), 0);
    assert_eq!(system.run(-1, 16), 0);
    assert_eq!(system.run(-90, 16), 12);
    assert_eq!(system.run(360, 16), 0);
    assert_eq!(system.run(450, 16), 4);
    assert_eq!(system.run(i16::MIN, 16), system.run(i16::MIN + 360, 16));
    assert_eq!(system.run(i16::MAX, 16), system.run(i16::MAX - 360, 16));
}

#[test]
fn sprite_without_variants_shows_its_only_bitmap() {
    let mut system = SpriteRotationSystem;
    assert_eq!(system.run(123, 0), 0);
    assert_eq!(system.run(123, 1), 0);
    assert_eq!(system.run(-77, 1), 0);
}

#[test]
fn variant_is_the_rounded_share_of_the_turn() {
    let mut system = SpriteRotationSystem;
    for variants in [1u16, 2, 3, 7, 16, 45, 360, 361, 1000, u16::MAX] {
        for degrees in i16::MIN..=i16::MAX {
            let index = system.run(degrees, variants);
            assert!(index < variants);
            assert_eq!(index, rounded(degrees, variants));
        }
    }
}

#[test]
fn variant_angle_of_sixteen_variants() {
    assert_eq!(SpriteRotationSystem::variant_angle(0, 16), 0);
    assert_eq!(SpriteRotationSystem::variant_angle(1, 16), 23);
    assert_eq!(SpriteRotationSystem::variant_angle(4, 16), 90);
    assert_eq!(SpriteRotationSystem::variant_angle(15, 16), 338);
    assert_eq!(SpriteRotationSystem::variant_angle(44, 45), 352);
}

#[test]
fn variant_angle_falls_into_its_own_step() {
    for variants in [1u16, 2, 3, 7, 16, 45, 90, 359, 360] {
        for index in 0..variants {
            let degrees = SpriteRotationSystem::variant_angle(index, variants);
            assert!((0..360).contains(&degrees));
            assert_eq!(degrees as u32 * variants as u32 / 360, index as u32);
        }
    }
}
