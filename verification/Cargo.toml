[package]
name = "pitou_core"
version = "0.1.0"
edition = "2021"
publish = false

[dependencies]
regex = "1"
chrono = { version = "0.4", features = ["serde"] }
serde = { version = "1", features = ["derive"] }
tokio = { version = "1", features = ["rt", "rt-multi-thread", "fs", "sync"] }
dirs = "*"
sysinfo = "*"
trash = "*"
open = "*"
