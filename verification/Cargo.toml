[package]
name = "script_bridge"
version = "0.1.0"
edition = "2021"
publish = false

[dependencies]
urlencoding = "2"
axum = "0.7"
bytes = "1"
clap = { version = "4", features = ["derive"] }
http-body = "1"
tokio = { version = "1", features = ["full"] }
tower-http = { version = "0.5", features = ["fs"] }
