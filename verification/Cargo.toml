[package]
name = "session_manager"
version = "0.1.0"
edition = "2021"
publish = false

[dependencies]
async-trait = "=0.1.92"
log = "=0.4.34"
reqwest = { version = "=0.11.27", default-features = false, features = ["json", "rustls-tls"] }
russh = { version = "=0.37.1", features = ["openssl"] }
russh-keys = { version = "=0.37.1", features = ["openssl"] }
serde = { version = "=1.0.229", features = ["derive"] }
tokio = { version = "=1.54.1", features = ["macros", "rt", "sync", "time"] }
uuid = { version = "=1.29.0", features = ["v4"] }
