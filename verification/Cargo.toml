[package]
name = "bpfman"
version = "0.1.0"
edition = "2021"
publish = false

[dependencies]
sled = "=0.34.7"
rand = "=0.8.8"
anyhow = "=1.0.104"
log = "=0.4.34"
nix = { version = "=0.26.4", features = ["net", "mount", "fs"] }
tokio = { version = "=1.53.2", features = ["rt-multi-thread", "net", "signal", "sync", "macros", "io-util", "time"] }
clap = { version = "=4.6.7", features = ["derive"] }
