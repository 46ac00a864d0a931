[package]
name = "policy_controller"
version = "0.1.0"
edition = "2021"
publish = false

[dependencies]
anyhow = "1"
drain = "*"
futures = "0.3"
ipnet = "2"
structopt = "0.3"
tokio = { version = "1", features = ["macros", "rt-multi-thread", "signal", "sync", "time"] }
tracing = "0.1"
tracing-subscriber = "*"
