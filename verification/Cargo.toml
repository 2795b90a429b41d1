[package]
name = "lane_hopper"
version = "0.1.0"
edition = "2021"
publish = false

[dependencies]
console = "0.15"
rand = "0.8"
tokio = { version = "1", features = ["rt-multi-thread", "macros", "time"] }
