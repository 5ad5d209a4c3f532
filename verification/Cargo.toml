[package]
name = "misc_benches"
version = "0.1.0"
edition = "2021"
publish = false

[dependencies]
rand = "0.8"
glam = "0.29"
bevy_math = "0.16"
bevy_transform = { version = "0.16", default-features = false, features = ["std"] }
sysinfo = "0.30"
criterion = "0.5"
