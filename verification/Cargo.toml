[package]
name = "shim_runc"
version = "0.1.0"
edition = "2021"
publish = false

[dependencies]
nix = "=0.26.4"
tokio = { version = "=1.53.2", features = ["sync", "rt", "rt-multi-thread", "process", "io-util", "fs", "macros", "time"] }
chrono = "=0.4.45"
url = "=2.5.8"
sys-mount = { version = "=2.1.1", default-features = false }
path-absolutize = "=3.1.1"
