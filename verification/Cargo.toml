[package]
name = "actor_runtime"
version = "0.1.0"
edition = "2021"
publish = false

[dependencies]
tokio = { version = "1", features = ["rt", "sync", "rt-multi-thread"] }
async-trait = "0.1"
