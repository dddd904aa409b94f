[package]
name = "graph_gateway"
version = "0.1.0"
edition = "2021"
publish = false

[dependencies]
warp = "=0.3.7"
tokio = { version = "=1.53.2", features = ["full"] }
futures = "=0.3.34"
bytes = "=1.12.1"
parking_lot = "=0.12.5"
tracing = "=0.1.44"
serde = { version = "=1.0.229", features = ["derive"] }
serde_json = "=1.0.151"
