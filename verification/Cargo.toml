[package]
name = "collab"
version = "0.1.0"
edition = "2021"
publish = false

[dependencies]
fastrand = "2"
rustls-pki-types = "1"
indexmap = "2"
futures-util = "0.3"
home = "0.5"
serde = { version = "1", features = ["derive"] }
