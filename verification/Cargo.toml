[package]
name = "headlines"
version = "0.1.0"
edition = "2021"
publish = false

[dependencies]
url = "=2.5.8"
serde_json = "=1.0.154"
serde = { version = "=1.0.229", features = ["derive"] }
ureq = "=2.12.1"
thiserror = "=1.0.69"
confy = "=0.4.0"
eframe = "=0.18.0"
tracing = "=0.1.44"
tracing-subscriber = "=0.3.23"
dotenv = "=0.15.0"
tokio = { version = "=1.54.1", features = ["rt", "macros"] }
reqwest = { version = "=0.11.27", default-features = false, features = ["json", "rustls-tls"] }
wasm-bindgen = "=0.2.129"
tracing-wasm = "0.2"
