[package]
name = "ramblathon"
version = "0.1.0"
edition = "2021"
publish = false

[dependencies]
futures-util = "0.3"
tokio = { version = "1", features = ["rt-multi-thread", "macros", "sync", "time", "fs", "io-util"] }
warp = "0.3"
