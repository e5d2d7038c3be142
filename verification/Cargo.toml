[package]
name = "longshot"
version = "0.1.0"
edition = "2021"
publish = false

[dependencies]
enum-iterator = "*"
tokio = { version = "1", default-features = false, features = ["sync", "time", "rt"] }
uuid = { version = "1", default-features = false }

[dev-dependencies]
hex = "0.4"
