[package]
name = "meter-core"
version = "0.1.0"
edition = "2021"
publish = false

[dependencies]
anymap2 = "0.13"
async-trait = "0.1"
dashmap = "5.5"
once_cell = "1"
parking_lot = "0.12"
tokio = { version = "1", default-features = false, features = ["time"] }
tracing = "0.1"
