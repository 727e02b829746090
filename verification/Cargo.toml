[package]
name = "meet-os"
version = "0.1.0"
edition = "2021"
publish = false

[dependencies]
chrono = { version = "=0.4.45", features = ["serde"] }
serde = { version = "1", features = ["derive"] }
surrealdb = { version = "=1.5.6", default-features = false, features = ["protocol-ws"] }
