[package]
name = "rocket_game"
version = "0.1.0"
edition = "2021"
publish = false

[dependencies]
anyhow = "=1.0.104"
cpal = "0.11"
derive_deref = "=1.1.1"
line_drawing = "=0.8.1"
pixels = "0.0.3"
rand = "=0.7.3"
safe-transmute = "=0.11.3"
specs = "=0.16.1"
specs-blit = "=0.5.1"
sprite-gen = "=0.2.0"
usfx = "=0.1.5"
vek = "=0.10.4"
winit = "0.22"
