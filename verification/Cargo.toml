[package]
name = "zombies"
version = "0.1.0"
edition = "2021"
publish = false

[dependencies]
uuid = { version = "=0.6.5", features = ["v4"] }
nalgebra = "=0.29.0"
ncollide2d = "=0.32.0"
nphysics2d = { version = "=0.24.0", default-features = false, features = ["dim2"] }
piston_window = "=0.134.2"
piston2d-sprite = "=0.69.0"
piston2d-opengl_graphics = "=0.89.0"
piston2d-graphics = "=0.45.0"
pistoncore-input = "=1.0.1"
find_folder = "=0.3.0"
vecmath = "=1.0.0"
config = { version = "=0.9.3", default-features = false, features = ["toml"] }
serde = { version = "=1.0.229", features = ["derive"] }
