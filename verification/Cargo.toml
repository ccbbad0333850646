[package]
name = "avtag"
version = "0.1.0"
edition = "2021"
publish = false

[dependencies]
anyhow = "1"
clap = "3"
clap_complete = "3"
cmd_lib = "1"
comfy-table = "5"
once_cell = "1"
regex = "1"
reqwest = { version = "0.11", default-features = false, features = ["blocking", "rustls-tls"] }
scopeguard = "1"
semver = "1"
serde = { version = "1", features = ["derive"] }
serde_regex = "1"
shellexpand = "2"
tempfile = "3"
toml = "0.5"
