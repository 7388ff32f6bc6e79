[package]
name = "marker_bridge"
version = "0.1.0"
edition = "2021"
publish = false

[dependencies]
bumpalo = "3"
rustc-hash = "2"
