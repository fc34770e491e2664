[package]
name = "syno_client"
version = "0.1.0"
edition = "2021"
publish = false

[dependencies]
serde_json = "*"
chrono = "*"
reqwest = { version = "*", default-features = false, features = ["blocking", "multipart", "cookies"] }
serde = { version = "*", features = ["derive"] }
zip = { version = "*", default-features = false }
walkdir = "*"
