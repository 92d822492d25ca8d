[package]
name = "videotoolbox"
version = "0.1.0"
edition = "2021"
publish = false

[dependencies]
apple-cf = "*"
apple-metal = "*"
doom-fish-utils = "*"
core-foundation = "*"
core-media-rs = "*"
thiserror = "*"
