[package]
name = "spiel"
version = "0.1.0"
edition = "2021"
publish = false

[dependencies]
serde = { version = "1", features = ["derive"] }
serde_json = "1"
sha2 = "0.10"
thiserror = "2"
reqwest = { version = "0.12", default-features = false, features = ["blocking", "json", "multipart", "rustls-tls"] }
rusqlite = { version = "*", features = ["bundled"] }
arboard = { version = "3", default-features = false }
cpal = "0.15"
whisper-rs = "*"
