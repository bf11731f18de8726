[package]
name = "jwm"
version = "0.2.0"
edition = "2021"
publish = false

[dependencies]
arc-swap = "1"
dirs = "6"
libc = "0.2"
log = "0.4"
nix = { version = "0.30", features = ["event", "fs", "user"] }
serde = { version = "1", features = ["derive"] }
serde_json = "1"
slotmap = "1"
toml = "0.9"
