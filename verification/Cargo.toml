[package]
name = "shukusai"
version = "0.1.0"
edition = "2021"
publish = false

[dependencies]
rand = { version = "=0.8.8", features = ["small_rng"] }
crossbeam-channel = "=0.5.17"
symphonia = "=0.5.5"
rb = "=0.4.1"
