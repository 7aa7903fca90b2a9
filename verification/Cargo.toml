[package]
name = "spec_vis"
version = "0.1.0"
edition = "2021"
publish = false

[dependencies]
clap = { version = "*", features = ["derive"] }
hsl = "*"
image = { version = "*", default-features = false, features = ["png"] }
indicatif = "*"
rustfft = "*"
symphonia = "*"
