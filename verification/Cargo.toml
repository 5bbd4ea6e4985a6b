[package]
name = "snare"
version = "0.1.0"
edition = "2021"
publish = false

[dependencies]
hmac = "0.12"
sha2 = "0.10"
getopts = "0.2"
hyper = { version = "0.14", features = ["server", "http1", "runtime"] }
libc = "0.2"
nix = { version = "0.29", features = ["fs", "user", "signal", "process", "poll"] }
signal-hook = "0.3"
tokio = { version = "1", features = ["rt-multi-thread", "net", "time"] }
users = "0.11"
