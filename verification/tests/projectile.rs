use rocket_game::projectile::{LaserLifetimeSystem, LASER_COLOR};

fn level(lifetime: f64, factor: f64) -> u8 {
    (lifetime * factor).min(255.0).max(0.0) as u8
}

#[test]
fn laser_starts_white() {
    assert_eq!(LASER_COLOR, 0xFF_FF_FF);
}

#[test]
fn laser_fade_after_half_its_lifetime() {
    // A laser of 0.1 s with a factor of 3000 has 0.05 s left.
    let color = LaserLifetimeSystem.run(level(0.1 - 0.05, 3000.0));
    assert_eq!(color & 0xFF, 150);
    assert_eq!(color, 0x06_06_96);
}

#[test]
fn laser_fade_is_clamped_at_both_ends() {
    assert_eq!(LaserLifetimeSystem.run(level(0.1, 3000.0)), 0x0F_0F_FF);
    assert_eq!(LaserLifetimeSystem.run(level(-0.01, 3000.0)), 0);
    assert_eq!(LaserLifetimeSystem.run(level(0.0, 3000.0)), 0);
}

#[test]
fn fade_color_of_every_level() {
    for level in 0..=255u8 {
        let color = LaserLifetimeSystem.run(level);
        let low = (level & 0xF) as u32;
        assert_eq!(color & 0xFF, level as u32);
        assert_eq!((color >> 8) & 0xFF, low);
        assert_eq!((color >> 16) & 0xFF, low);
        assert_eq!(color >> 24, 0);
    }
}
