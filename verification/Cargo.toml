[package]
name = "finam_sdk"
version = "0.1.0"
edition = "2021"
publish = false

[dependencies]
tonic = "*"
tokio = { version = "*", features = ["rt", "time", "sync", "macros"] }
log = "*"
thiserror = "*"
