[package]
name = "rit"
version = "0.1.0"
edition = "2021"
publish = false

[dependencies]
ansi_term = "=0.12.1"
anyhow = "*"
clap = { version = "=4.6.7", features = ["derive", "env"] }
dotenv = "*"
fs-err = "*"
rbxcloud = "=0.17.0"
roblox_install = "*"
serde_json = { version = "=1.0.151", features = ["float_roundtrip"] }
tempfile = "*"
tokio = { version = "*", features = ["macros", "rt-multi-thread"] }
