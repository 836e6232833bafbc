[package]
name = "axum_hot_swappable_router"
version = "0.1.0"
edition = "2021"
publish = false

[dependencies]
arc-swap = "*"
axum = "*"
tokio = { version = "*", features = ["rt-multi-thread", "net", "time", "macros"] }
tower = "*"
