[package]
name = "leaf_tunnel"
version = "0.1.0"
edition = "2021"
publish = false

[dependencies]
anyhow = "1"
futures = "0.3"
lazy_static = "1"
netstack-smoltcp = "*"
tokio = { version = "1", features = ["rt"] }
tracing = "0.1"
