[package]
name = "arkview_core"
version = "0.1.0"
edition = "2021"
publish = false

[dependencies]
zip = { version = "*", default-features = false, features = ["deflate"] }
rayon = "*"
image = { version = "*", default-features = false, features = ["png", "jpeg"] }
