[package]
name = "cdk_blink"
version = "0.1.0"
edition = "2021"
publish = false

[dependencies]
anyhow = "=1.0.104"
async-trait = "=0.1.92"
cdk-common = "=0.17.7"
cdk-payment-processor = { version = "=0.17.7", default-features = false }
chrono = "=0.4.45"
figment = { version = "=0.10.19", features = ["toml"] }
futures-core = "=0.3.34"
futures-util = "=0.3.34"
hex = "=0.4.3"
http = "=1.5.0"
lightning-invoice = "=0.34.1"
reqwest = { version = "=0.12.28", default-features = false, features = ["json", "rustls-tls"] }
rcgen = "=0.12.1"
serde = { version = "=1.0.229", features = ["derive"] }
serde_json = "=1.0.154"
tokio = { version = "=1.54.1", features = ["full"] }
tokio-stream = "=0.1.19"
tokio-tungstenite = { version = "=0.24.0", features = ["rustls-tls-webpki-roots"] }
tracing = "=0.1.44"
tracing-subscriber = { version = "=0.3.23", features = ["env-filter"] }
