[package]
name = "sonar"
version = "0.1.0"
edition = "2021"
publish = false

[dependencies]
global-hotkey = "0.6"
serde = { version = "1", features = ["derive"] }
serde_json = "1"
strsim = "0.11"
rusqlite = { version = "0.32", features = ["bundled"] }
directories = "5"
chrono = { version = "0.4", default-features = false, features = ["clock"] }
anyhow = "1"
log = "0.4"
num-traits = "0.2"
futures-util = "0.3"
tokio = { version = "1", features = ["rt-multi-thread", "fs", "io-util"] }
reqwest = { version = "0.12", default-features = false, features = ["rustls-tls", "stream"] }
