[package]
name = "cursor_registry"
version = "0.1.0"
edition = "2021"
publish = false

[dependencies]
dashmap = "*"
bson = "*"
tokio = { version = "*", features = ["rt-multi-thread", "time", "macros", "sync"] }
