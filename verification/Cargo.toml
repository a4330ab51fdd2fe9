[package]
name = "calendar_notifier"
version = "0.1.0"
edition = "2021"
publish = false

[dependencies]
chrono = "0.4"
serde = { version = "1", features = ["derive"] }
serde_json = "1"
reqwest = { version = "0.11", default-features = false, features = ["rustls-tls", "multipart", "json"] }
tokio = { version = "1", features = ["macros", "rt-multi-thread"] }
futures = "0.3"
async-trait = "0.1"
log = "0.4"
fern = "0.6"
maplit = "1"
thiserror = "1"
netlify_lambda = "0.2"
