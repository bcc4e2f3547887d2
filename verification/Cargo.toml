[package]
name = "gemfra"
version = "0.1.0"
edition = "2021"
publish = false

[dependencies]
chrono = "0.4"
tokio = { version = "1", features = ["io-util", "net", "rt", "rt-multi-thread", "macros"] }
async-trait = "0.1"
bytes = "1"
route-recognizer = "0.3"
