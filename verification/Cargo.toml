[package]
name = "todo_notes"
version = "0.1.0"
edition = "2021"
publish = false

[dependencies]
chrono = { version = "=0.4.45", features = ["serde"] }
mongodb = { version = "=2.8.2", default-features = false, features = ["sync"] }
serde = { version = "=1.0.229", features = ["derive"] }
