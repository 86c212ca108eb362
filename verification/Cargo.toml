[package]
name = "ore_app"
version = "0.1.0"
edition = "2021"
publish = false

[dependencies]
chrono = "0.4"
serde = { version = "1", features = ["derive"] }
toml = "0.8"
crossbeam-channel = "0.5"
cocoon = "0.4"
tiny-bip39 = "1"
open = "5"
sysinfo = "0.30"
