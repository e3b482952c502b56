[package]
name = "pathfinder_demo"
version = "0.1.0"
edition = "2021"
publish = false

[dependencies]
clap = "2"
image = { version = "0.23", default-features = false, features = ["png"] }
log = "0.4"
pathfinder_color = "0.5"
pathfinder_content = "0.5"
pathfinder_geometry = "0.5"
pathfinder_gl = "0.5"
pathfinder_gpu = "0.5"
pathfinder_renderer = "0.5"
pathfinder_resources = "0.5"
pathfinder_simd = "0.5"
pathfinder_svg = "0.5"
pathfinder_ui = "0.5"
usvg = "0.9"
