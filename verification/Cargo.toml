[package]
name = "mikumikuloader"
version = "0.1.0"
edition = "2021"
publish = false

[dependencies]
aes = "=0.8.4"
cbc = { version = "=0.1.2", features = ["alloc", "block-padding"] }
block-padding = "=0.3.3"
rand = "=0.9.5"
chrono = "=0.4.45"
serde = { version = "=1.0.229", features = ["derive"] }
serde_json = { version = "1", features = ["preserve_order"] }
rmp-serde = "=1.3.1"
toml = "=0.8.23"
walkdir = "=2.5.0"
