[package]
name = "task_facade"
version = "0.1.0"
edition = "2021"
publish = false

[dependencies]
tokio = { version = "=1.54.1", default-features = false, features = ["rt", "rt-multi-thread", "time"] }
futures-util = { version = "=0.3.34", default-features = false, features = ["std"] }
scoped-tls = "=1.0.1"
