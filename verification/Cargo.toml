[package]
name = "multi_rpc"
version = "0.1.0"
edition = "2021"
publish = false

[dependencies]
axum = "*"
futures = "*"
proc-macro2 = "*"
quote = "*"
serde = { version = "1", features = ["derive"] }
serde_json = "1"
syn = { version = "2", features = ["full"] }
thiserror = "*"
tokio = { version = "1", features = ["rt-multi-thread", "sync", "signal", "net", "macros"] }
