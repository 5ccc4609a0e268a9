[package]
name = "rust_in_synth"
version = "0.1.0"
edition = "2021"
publish = false

[dependencies]
serde = { version = "1", features = ["derive"] }
serde_json = "1"
dirs = "5"
dashmap = "6"
parking_lot = "0.12"
crossterm = "0.27"
