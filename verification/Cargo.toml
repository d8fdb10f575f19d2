[package]
name = "alvr_bravr"
version = "0.1.0"
edition = "2021"
publish = false

[dependencies]
fxhash = "0.2"
serde = { version = "1", features = ["derive"] }
rand = "0.8"
log = "0.4"
tch = "*"
