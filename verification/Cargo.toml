[package]
name = "g3_transfer"
version = "0.1.0"
edition = "2021"
publish = false

[dependencies]
anyhow = "1"
ascii = "1"
fastrand = "2"
log = "0.4"
socket2 = { version = "0.5", features = ["all"] }
tokio = { version = "1", default-features = false, features = ["io-util", "macros", "net", "rt", "time"] }
yaml-rust = "0.4"
