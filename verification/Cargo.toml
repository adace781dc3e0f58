[package]
name = "ezcfg"
version = "0.1.0"
edition = "2021"
publish = false

[dependencies]
crossbeam-channel = "=0.5.17"
threadpool = "*"
scopeguard = "*"
num_cpus = "*"
clap = "*"
serde = { version = "*", features = ["derive"] }
toml = "*"
ansi_term = "*"
indicatif = "*"
