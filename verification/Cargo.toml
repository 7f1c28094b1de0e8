[package]
name = "rusty_yunet"
version = "0.1.0"
edition = "2021"
publish = false

[dependencies]
cxx = "1"
image = { version = "0.23.14", default-features = false, features = ["jpeg", "png"] }
serde = { version = "1", features = ["derive"] }
thiserror = "1"
