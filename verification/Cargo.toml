[package]
name = "srvcs-crossproduct"
version = "0.1.0"
edition = "2021"
publish = false

[dependencies]
axum = "*"
serde = { version = "1", features = ["derive"] }
serde_json = "1"
utoipa = "*"
tokio = { version = "1", features = ["macros", "rt-multi-thread", "net"] }
reqwest = { version = "*", default-features = false, features = ["json"] }
