[package]
name = "contact_export"
version = "0.1.0"
edition = "2021"
publish = false

[dependencies]
serde_json = "1"
csv = "1"
serde = { version = "1", features = ["derive"] }
config = "*"
reqwest = { version = "0.12", default-features = false, features = ["json", "rustls-tls"] }
tokio = { version = "1", features = ["macros", "rt-multi-thread"] }
