[package]
name = "wait_service"
version = "0.1.0"
edition = "2021"
publish = false

[dependencies]
anyhow = "*"
clap = { version = "*", features = ["derive"] }
concat-with = "*"
dnsclient = "*"
once_cell = "*"
path-absolutize = "*"
serde = { version = "*", features = ["derive"] }
serde_json = "*"
terminal_size = "*"
tokio = { version = "*", features = ["rt", "net", "time", "sync", "macros", "fs", "io-util"] }
