[package]
name = "minibox"
version = "0.1.0"
edition = "2021"
publish = false

[dependencies]
serde_json = "1"
libflate = "2"
tar = "0.4"
reqwest = { version = "0.12", default-features = false, features = ["blocking"] }
nix = { version = "0.29", features = ["sched"] }
tempfile = "3"
anyhow = "1"
