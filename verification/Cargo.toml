[package]
name = "hermod"
version = "0.1.0"
edition = "2021"
publish = false

[dependencies]
openssl = "*"
clap = "*"
env_logger = "*"
home = "*"
local-ip-address = "*"
log = "*"
ratatui = "*"
reqwest = { version = "*", default-features = false, features = ["blocking", "multipart"] }
serde = { version = "*", features = ["derive"] }
toml = "*"
