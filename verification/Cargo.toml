[package]
name = "gossip_sync"
version = "0.1.0"
edition = "2021"
publish = false

[dependencies]
bitcoin = "0.29"
lightning = "0.0.116"
lightning-net-tokio = "0.0.116"
rand = "0.8"
tokio = { version = "1", features = ["rt-multi-thread", "macros", "time", "sync", "net"] }
