use rocket_game::blit::blit;
use rocket_game::frame::{frame_buffer, plot_point};
use rocket_game::sprite::{sprite_bitmap, MaskValue, TRANSPARENT};
use specs_blit::blit::BlitBuffer;
use specs_blit::PixelBuffer;

const WIDTH: usize = 6;
const HEIGHT: usize = 5;
const KEY: u32 = 0;
const TOP: u32 = 0xFF00_0000;

fn screen() -> PixelBuffer {
    let mut buffer = frame_buffer(WIDTH, HEIGHT).unwrap();
    for y in 0..HEIGHT {
        for x in 0..WIDTH {
            plot_point(&mut buffer, (x as i64, y as i64), 0x1000 + (x + y * WIDTH) as u32);
        }
    }
    buffer
}

fn reference(sprite: &[u32], width: usize, position: (i32, i32), key: u32) -> Vec<u32> {
    let mut pixels = screen().pixels().clone();
    let rows = sprite.len() / width;
    for sy in 0..rows {
        for sx in 0..width {
            let px = position.0 as i64 + sx as i64;
            let py = position.1 as i64 + sy as i64;
            let color = sprite[sx + sy * width];
            if px >= 0 && py >= 0 && px < WIDTH as i64 && py < HEIGHT as i64 {
                let index = px as usize + py as usize * WIDTH;
                if color | TOP == key | TOP {
                    pixels[index] |= TOP;
                } else {
                    pixels[index] = color | TOP;
                }
            }
        }
    }
    pixels
}

#[test]
fn blit_inside_the_screen() {
    let mut buffer = screen();
    let bitmap = BlitBuffer::from_buffer(&[1, 2, 3, 4], 2, KEY);
    assert!(blit(&mut buffer, &bitmap, (1, 1)));
    let mut pixels = screen().pixels().clone();
    pixels[1 + WIDTH] = 1 | TOP;
    pixels[2 + WIDTH] = 2 | TOP;
    pixels[1 + 2 * WIDTH] = 3 | TOP;
    pixels[2 + 2 * WIDTH] = 4 | TOP;
    assert_eq!(buffer.pixels(), &pixels);
    assert_eq!(buffer.width(), WIDTH);
    assert_eq!(buffer.height(), HEIGHT);
}

#[test]
fn pixels_of_the_key_colour_keep_the_screen() {
    let mut buffer = screen();
    let bitmap = BlitBuffer::from_buffer(&[7, 9, 9, 7], 2, 9);
    assert!(blit(&mut buffer, &bitmap, (0, 0)));
    let mut pixels = screen().pixels().clone();
    pixels[0] = 7 | TOP;
    pixels[1] |= TOP;
    pixels[WIDTH] |= TOP;
    pixels[1 + WIDTH] = 7 | TOP;
    assert_eq!(buffer.pixels(), &pixels);
    // The colour bytes of the screen stay under a bitmap of the key colour alone.
    let mut kept = screen();
    let clear = BlitBuffer::from_buffer(&[9; 30], 6, 9);
    assert!(blit(&mut kept, &clear, (0, 0)));
    for (after, before) in kept.pixels().iter().zip(screen().pixels().iter()) {
        assert_eq!(after & 0x00FF_FFFF, before & 0x00FF_FFFF);
        assert_eq!(*after, before | TOP);
    }
}

#[test]
fn blit_replaces_and_does_not_blend() {
    let mut buffer = screen();
    assert!(blit(&mut buffer, &BlitBuffer::from_buffer(&[0x00FF_FFFF], 1, KEY), (3, 3)));
    assert_eq!(buffer.pixels()[3 + 3 * WIDTH], 0xFFFF_FFFF);
    assert!(blit(&mut buffer, &BlitBuffer::from_buffer(&[0x0000_0001], 1, KEY), (3, 3)));
    assert_eq!(buffer.pixels()[3 + 3 * WIDTH], 0xFF00_0001);
}

#[test]
fn blit_is_clipped_at_every_edge() {
    let sprite: Vec<u32> = (1..=9).collect();
    let bitmap = BlitBuffer::from_buffer(&sprite, 3, KEY);
    let mut left_top = screen();
    assert!(blit(&mut left_top, &bitmap, (-1, -2)));
    let mut pixels = screen().pixels().clone();
    pixels[0] = 8 | TOP;
    pixels[1] = 9 | TOP;
    assert_eq!(left_top.pixels(), &pixels);

    let mut right_bottom = screen();
    assert!(blit(&mut right_bottom, &bitmap, (5, 3)));
    let mut pixels = screen().pixels().clone();
    pixels[5 + 3 * WIDTH] = 1 | TOP;
    pixels[5 + 4 * WIDTH] = 4 | TOP;
    assert_eq!(right_bottom.pixels(), &pixels);
}

#[test]
fn blit_off_the_screen_changes_nothing() {
    let sprite: Vec<u32> = (1..=9).collect();
    let bitmap = BlitBuffer::from_buffer(&sprite, 3, KEY);
    for position in [
        (-3, 0),
        (0, -3),
        (6, 0),
        (0, 5),
        (i32::MIN, i32::MIN),
        (i32::MAX - 3, i32::MAX - 3),
        (i32::MIN, 0),
        (0, i32::MAX - 3),
    ] {
        let mut buffer = screen();
        assert!(blit(&mut buffer, &bitmap, position));
        assert_eq!(buffer.pixels(), screen().pixels());
    }
}

#[test]
fn blit_whose_far_corner_cannot_be_counted() {
    let sprite: Vec<u32> = (1..=9).collect();
    let bitmap = BlitBuffer::from_buffer(&sprite, 3, KEY);
    for position in [(i32::MAX, 0), (0, i32::MAX), (i32::MAX - 2, i32::MAX - 2)] {
        let mut buffer = screen();
        assert!(!blit(&mut buffer, &bitmap, position));
        assert_eq!(buffer.pixels(), screen().pixels());
    }
    // Nor is anything blitted onto a screen without pixels.
    let mut empty = frame_buffer(0, 0).unwrap();
    assert!(!blit(&mut empty, &bitmap, (0, 0)));
    assert_eq!(empty.pixels().len(), 0);
}

#[test]
fn blit_at_any_position_stays_on_the_screen() {
    let sprite: Vec<u32> = (0..12).map(|i| if i % 5 == 0 { KEY } else { 0x20 + i }).collect();
    for width in [1usize, 3, 4, 12] {
        let bitmap = BlitBuffer::from_buffer(&sprite, width as i32, KEY);
        for y in -6..8 {
            for x in -14..9 {
                let mut buffer = screen();
                assert!(blit(&mut buffer, &bitmap, (x, y)));
                assert_eq!(buffer.pixels().len(), WIDTH * HEIGHT);
                assert_eq!(buffer.pixels(), &reference(&sprite, width, (x, y), KEY));
            }
        }
    }
}

#[test]
fn blit_larger_than_the_screen() {
    let bitmap = BlitBuffer::from_buffer(&vec![5u32; 20 * 20], 20, KEY);
    let mut buffer = screen();
    assert!(blit(&mut buffer, &bitmap, (-7, -7)));
    assert_eq!(buffer.pixels(), &vec![5u32 | TOP; WIDTH * HEIGHT]);
}

#[test]
fn blit_of_the_same_size_as_the_screen() {
    let sprite: Vec<u32> = (0..30).collect();
    let bitmap = BlitBuffer::from_buffer(&sprite, WIDTH as i32, KEY);
    let mut buffer = screen();
    assert!(blit(&mut buffer, &bitmap, (0, 0)));
    assert_eq!(buffer.pixels(), &reference(&sprite, WIDTH, (0, 0), KEY));
}

#[test]
fn blit_of_a_generated_sprite() {
    let mask = [MaskValue::Solid, MaskValue::Empty, MaskValue::Empty, MaskValue::Solid];
    let bitmap = sprite_bitmap(2, sprite_gen::Options::default(), &mask).unwrap();
    assert_eq!(bitmap.size(), (2, 2));
    assert_eq!(bitmap.mask_color().u32(), TRANSPARENT | TOP);
    let mut buffer = screen();
    assert!(blit(&mut buffer, &bitmap, (2, 2)));
    let before = screen();
    // The empty corners keep the screen, the solid ones replace it.
    assert_eq!(buffer.pixels()[3 + 2 * WIDTH], before.pixels()[3 + 2 * WIDTH] | TOP);
    assert_eq!(buffer.pixels()[2 + 3 * WIDTH], before.pixels()[2 + 3 * WIDTH] | TOP);
    assert_ne!(buffer.pixels()[2 + 2 * WIDTH], before.pixels()[2 + 2 * WIDTH] | TOP);
    assert_ne!(buffer.pixels()[3 + 3 * WIDTH], before.pixels()[3 + 3 * WIDTH] | TOP);
}
