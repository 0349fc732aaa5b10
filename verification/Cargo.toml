[package]
name = "drone_mesh"
version = "0.1.0"
edition = "2021"
publish = false

[dependencies]
pqc_kyber = { version = "=0.7.1", features = ["kyber1024"] }
dilithium-rs = "=0.4.1"
aes-gcm = "=0.10.3"
sha2 = "=0.10.9"
rand = "=0.8.8"
serde = { version = "=1.0.229", features = ["derive"] }
serde_json = "=1.0.154"
chrono = "=0.4.45"
anyhow = "=1.0.104"
log = "=0.4.35"
env_logger = "=0.10.2"
colored = "=2.2.0"
clap = { version = "=4.6.7", features = ["derive"] }
tokio = { version = "=1.54.1", features = ["full"] }
tokio-tungstenite = "=0.21.0"
futures-util = "=0.3.34"
url = "=2.5.8"
wasm-bindgen = "=0.2.130"
js-sys = "=0.3.107"
pyo3 = "=0.22.6"

[dev-dependencies]
hex = "=0.4.3"
