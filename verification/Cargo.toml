[package]
name = "watchit"
version = "0.1.0"
edition = "2021"
publish = false

[dependencies]
anyhow = "1"
clap = "2"
crossbeam-channel = "0.5"
inotify = "0.9"
log = "0.4"
nix = { version = "*", features = ["signal"] }
pretty_env_logger = "0.4"
walkdir = "2"
