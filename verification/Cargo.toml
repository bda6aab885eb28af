[package]
name = "rustboy"
version = "0.1.0"
edition = "2021"
publish = false

[dependencies]
image = { version = "=0.21.3", default-features = false }
log = "=0.4.35"
clap = "=2.34.0"
simplelog = "=0.5.3"
piston_window = "=0.148.0"
