[package]
name = "ghost_actor"
version = "0.1.0"
edition = "2021"
publish = false

[dependencies]
futures = "0.3"
must_future = "0.1"
tokio = { version = "1", features = ["rt", "rt-multi-thread", "time", "sync"] }
tracing = "0.1"
thiserror = "1"
