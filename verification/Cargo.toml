[package]
name = "rede"
version = "0.1.0"
edition = "2021"
publish = false

[dependencies]
log = "0.4"
once_cell = "1"
serde = { version = "1", features = ["derive"] }
thiserror = "1"
tauri = { version = "2", default-features = false }
