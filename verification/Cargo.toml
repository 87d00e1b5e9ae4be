[package]
name = "icap_reqmod"
version = "0.1.0"
edition = "2021"
publish = false

[dependencies]
tokio = { version = "1", features = ["io-util", "macros", "net", "rt", "sync", "time"] }
nix = { version = "0.29", features = ["net", "socket", "uio"] }
