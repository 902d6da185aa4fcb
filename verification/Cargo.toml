[package]
name = "zinx_rs"
version = "0.1.0"
edition = "2021"
publish = false

[dependencies]
bytes = "1"
crossbeam = "0.8"
crossbeam-channel = "0.5"
tokio = { version = "1", features = ["full"] }
serde = { version = "1", features = ["derive"] }
structopt = "0.3"
structopt-toml = "0.5"
toml = "0.5"
