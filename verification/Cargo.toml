[package]
name = "lynxocr"
version = "0.1.0"
edition = "2021"
publish = false

[dependencies]
base64 = "=0.22.1"
zip = { version = "=2.6.1", default-features = false, features = ["deflate"] }
serde = { version = "=1.0.229", features = ["derive"] }
serde_json = "=1.0.154"
ureq = "=2.12.1"
axum = "=0.7.9"
tokio = { version = "=1.54.1", features = ["rt-multi-thread", "net", "sync", "macros"] }
tower-http = { version = "=0.6.11", features = ["cors"] }
thiserror = "=2.0.21"
log = "=0.4.35"
image = { version = "=0.25.10", default-features = false, features = ["png", "jpeg", "bmp", "webp", "tiff"] }
paddle-ocr-rs = { version = "=0.6.1", default-features = false }
ort = { version = "=2.0.0-rc.10", default-features = false, features = ["std", "ndarray"] }
num_cpus = "=1.17.0"
rayon = "=1.12.0"
