[package]
name = "treasury_ingest"
version = "0.1.0"
edition = "2021"
publish = false

[dependencies]
arrow = { version = "=60.0.0", default-features = false, features = ["ipc"] }
arrow-ipc = { version = "=60.0.0", default-features = false }
rustc-hash = "=2.1.3"
tokio = { version = "=1.54.1", features = ["rt-multi-thread", "macros", "sync", "time"] }
tokio-stream = "=0.1.19"
tonic = { version = "=0.14.6", features = ["zstd"] }
tonic-prost = "=0.14.6"
tonic-reflection = "0.14"
prost = "=0.14.4"
prost-types = "0.14"
async-stream = "=0.3.6"
tracing = "=0.1.44"
tracing-subscriber = { version = "=0.3.23", features = ["env-filter"] }
color-eyre = "=0.6.5"
duckdb = "=1.20000.0"
