[package]
name = "sqlite_dump"
version = "0.1.0"
edition = "2021"
publish = false

[dependencies]
chrono = { version = "0.4", default-features = false, features = ["std"] }
csv = "1"
clap = { version = "4", features = ["derive"] }
env_logger = "*"
log = "0.4"
rusqlite = "*"
tokio = { version = "1", features = ["rt-multi-thread", "macros", "fs"] }
