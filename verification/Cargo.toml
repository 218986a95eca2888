[package]
name = "helios_ls"
version = "0.1.0"
edition = "2021"
publish = false

[dependencies]
flume = "*"
serde = { version = "*", features = ["derive"] }
serde_json = "*"
log = "*"
env_logger = "*"
clap = "*"
lsp-types = "*"
