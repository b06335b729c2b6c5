[package]
name = "krader"
version = "0.1.0"
edition = "2021"
publish = false

[dependencies]
chrono = "=0.4.45"
serde = { version = "=1.0.229", features = ["derive"] }
serde_json = "=1.0.151"
thiserror = "=2.0.21"
reqwest = { version = "=0.12.28", default-features = false, features = ["json", "rustls-tls"] }
iced = { version = "=0.13.1", default-features = false, features = ["tiny-skia", "tokio", "lazy"] }
iced_table = "=0.13.0"
