[package]
name = "lumd"
version = "0.1.0"
edition = "2021"
publish = false

[dependencies]
nix = { version = "*", features = ["fs", "user"] }
xdg = "*"
