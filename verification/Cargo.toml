[package]
name = "source_types"
version = "0.1.0"
edition = "2021"
publish = false

[dependencies]
anyhow = "1"
differential-dataflow = "0.12"
futures = "0.3"
prometheus = { version = "0.13", default-features = false }
serde = { version = "1", features = ["derive"] }
timely = "0.12"
