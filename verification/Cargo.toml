[package]
name = "csm"
version = "0.1.0"
edition = "2021"
publish = false

[dependencies]
bzip2 = "*"
clap = { version = "4", features = ["derive"] }
dirs = "*"
env_logger = "*"
log = "0.4"
reqwest = { version = "0.12", features = ["blocking"] }
serde = { version = "1", features = ["derive"] }
serde_yaml_ng = "*"
tar = "0.4"
