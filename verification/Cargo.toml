[package]
name = "handy"
version = "0.1.0"
edition = "2021"
publish = false

[dependencies]
base64 = "0.22"
anyhow = "1"
serde = { version = "1", features = ["derive"] }
serde_json = "1"
tokio = { version = "1", features = ["sync", "rt", "rt-multi-thread", "macros", "fs", "io-util"] }
async-trait = "0.1"
futures-util = "0.3"
reqwest = { version = "0.12", default-features = false, features = ["stream", "rustls-tls"] }
hound = "3.5.1"
rubato = "0.16.2"
flate2 = "1"
tar = "0.4"
chrono = "0.4"
log = "0.4"
transcribe-rs = "*"
