[package]
name = "ostep"
version = "0.1.0"
edition = "2021"
publish = false

[dependencies]
anyhow = "=1.0.104"
cargo_metadata = "=0.23.1"
clap = { version = "=4.6.7", features = ["derive"] }
crossterm = "=0.29.0"
futures = "=0.3.34"
proc-macro2 = "=1.0.107"
quote = "=1.0.47"
rayon = "=1.12.0"
serde_json = "=1.0.154"
syn = { version = "=2.0.119", features = ["full"] }
tokio = { version = "=1.54.1", features = ["full"] }
tokio-stream = { version = "=0.1.19", features = ["fs"] }
tracing = "=0.1.44"
tracing-subscriber = "=0.3.23"
