[package]
name = "omnireader-core"
version = "0.1.0"
edition = "2021"
publish = false

[dependencies]
chrono = "0.4"
epub = "2"
image = { version = "0.25", default-features = false, features = ["png"] }
pdfium-render = "0.8"
rusqlite = { version = "*", features = ["bundled"] }
thiserror = "*"
uniffi = "*"
uuid = { version = "1", features = ["v4"] }
