[package]
name = "sdiff"
version = "0.1.0"
edition = "2021"
publish = false

[dependencies]
anyhow = "1"
clap = "2.33"
image = "0.23"
piston_window = "*"
