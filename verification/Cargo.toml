[package]
name = "world_server"
version = "0.1.0"
edition = "2021"
publish = false

[dependencies]
fastrand = "2"
mlua = { version = "0.10", features = ["lua54", "vendored", "serialize"] }
physis = "*"
rusqlite = { version = "0.34", default-features = false, features = ["bundled"] }
serde = { version = "1", features = ["derive"] }
serde_json = "1"
tracing = "0.1"
zip = { version = "2", default-features = false, features = ["deflate"] }
