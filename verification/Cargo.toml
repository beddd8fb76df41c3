[package]
name = "bosminer_hal"
version = "0.1.0"
edition = "2021"
publish = false

[dependencies]
futures = "*"
futures-locks = "*"

[dev-dependencies]
tokio = { version = "*", features = ["rt-multi-thread"] }
