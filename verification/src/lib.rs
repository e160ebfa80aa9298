//! Core of a small 2D space game: latched keyboard input, the boost sound
//! throttle, laser colours, the choice of a sprite's rotated variant, line
//! rasterisation into a frame buffer and procedural sprite generation.

pub mod asteroid;
pub mod audio;
pub mod blit;
pub mod frame;
pub mod line;
pub mod physics;
pub mod projectile;
pub mod rocket;
pub mod schedule;
pub mod sprite;
pub mod user;
