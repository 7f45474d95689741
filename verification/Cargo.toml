[package]
name = "st_madison_backend"
version = "0.1.0"
edition = "2021"
publish = false

[dependencies]
rust_decimal = "*"
serde = { version = "*", features = ["derive"] }
serde_json = "*"
axum = "*"
tokio = { version = "*", features = ["rt-multi-thread", "macros", "net"] }
dotenvy = "*"
thiserror = "*"
