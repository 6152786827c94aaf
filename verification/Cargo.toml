[package]
name = "aktsql"
version = "0.1.0"
edition = "2021"
publish = false

[dependencies]
serde = { version = "1", features = ["derive"] }
serde_json = "1"
rusqlite = { version = "0.31", features = ["bundled"] }
postgres = "0.19"
mysql = { version = "25", default-features = false, features = ["minimal"] }
mongodb = { version = "2", default-features = false, features = ["sync"] }
