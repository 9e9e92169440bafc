[package]
name = "limtr"
version = "0.1.0"
edition = "2021"
publish = false

[dependencies]
chrono = { version = "0.4", default-features = false, features = ["now"] }
once_cell = "1"
tokio = { version = "1", features = ["rt", "sync"] }
