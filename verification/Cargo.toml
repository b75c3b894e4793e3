[package]
name = "pty_gateway"
version = "0.1.0"
edition = "2021"
publish = false

[dependencies]
serde_json = "=1.0.151"
uuid = { version = "=1.27.0", features = ["v4"] }
chrono = "=0.4.45"
serde = { version = "=1.0.229", features = ["derive"] }
log = "=0.4.34"
env_logger = "=0.11.11"
tokio = { version = "=1.53.2", features = ["rt-multi-thread", "macros", "net"] }
tokio-tungstenite = "=0.30.0"
futures-util = "=0.3.34"
warp = { version = "=0.4.3", features = ["server"] }
