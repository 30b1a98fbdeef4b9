[package]
name = "sentineld"
version = "0.1.0"
edition = "2021"
publish = false

[dependencies]
actix-web = { version = "4", default-features = false, features = ["macros"] }
arc-swap = "1"
notify = "6"
prometheus = { version = "0.13", default-features = false }
serde = { version = "1", features = ["derive"] }
serde_yml = "0.0.12"
sysinfo = "0.33"
tokio = { version = "1", features = ["full"] }
tokio-util = "0.7"
tracing = "0.1"
tracing-subscriber = "0.3"
