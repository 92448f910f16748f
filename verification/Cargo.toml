[package]
name = "sunscape"
version = "0.1.0"
edition = "2021"
publish = false

[dependencies]
chrono = "0.4"
clap = { version = "4", features = ["derive"] }
csscolorparser = "0.6"
palette = "0.6"
resvg = "0.22"
roxmltree = "0.14"
tiny-skia = "0.6"
usvg = "0.22"
yaml-rust = "0.4"
