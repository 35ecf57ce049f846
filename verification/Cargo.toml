[package]
name = "vmtest"
version = "0.1.0"
edition = "2021"
publish = false

[dependencies]
rand = "0.8"
anyhow = "1"
clap = { version = "4", features = ["derive"] }
console = "0.15"
env_logger = "0.10"
log = "0.4"
qapi = { version = "0.14", features = ["qga", "qmp"] }
regex = "1"
serde = "1"
serde_derive = "1"
scopeguard = "1"
tempfile = "3"
toml = "0.8"
