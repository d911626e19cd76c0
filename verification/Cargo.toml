[package]
name = "worker_core"
version = "0.1.0"
edition = "2021"
publish = false

[dependencies]
crossbeam = "=0.8.5"
dashmap = "=5.5.3"
parking_lot = "=0.12.5"
prost = "=0.13.5"
prost-types = "=0.13.5"
tonic = { version = "=0.13.1", default-features = false }
tokio = { version = "=1.54.1", features = ["sync", "time", "macros", "rt"] }
futures = "=0.3.34"
temporal-sdk-core-protos = "=0.1.0"
