[package]
name = "libcontainer-rs"
version = "0.1.0"
edition = "2021"
publish = false

[dependencies]
nix = "0.24"
sys-mount = { version = "1.5", default-features = false }
ipc-channel = "0.16"
serde = { version = "1", features = ["derive"] }
color-eyre = "0.6"
log = "0.4"
