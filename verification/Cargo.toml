[package]
name = "noisy_shuttle"
version = "0.1.0"
edition = "2021"
publish = false

[dependencies]
anyhow = "1"
async-trait = "0.1"
ja3-rustls = "*"
rand = "0.8"
structopt = "0.3"
structopt-flags = "0.3"
tokio = { version = "1", features = ["full"] }
tracing = "0.1"
