[package]
name = "focusapp"
version = "0.1.0"
edition = "2021"
publish = false

[dependencies]
base64 = "0.22"
reqwest = { version = "0.12", default-features = false, features = ["json", "rustls-tls"] }
serde = { version = "1", features = ["derive"] }
serde_json = "1"
tauri = { version = "2", default-features = false }
tauri-plugin-http = { version = "2", default-features = false }
thiserror = "1"
tokio = { version = "1", features = ["fs", "macros", "rt", "sync", "time"] }
