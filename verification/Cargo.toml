[package]
name = "greptime_client"
version = "0.1.0"
edition = "2021"
publish = false

[dependencies]
greptime-proto = "*"
tokio = { version = "*", features = ["full"] }
tokio-stream = "*"
tonic = "*"
sqlx = { version = "*", default-features = false, features = ["mysql", "runtime-tokio"] }
