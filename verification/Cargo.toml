[package]
name = "guess_chess"
version = "0.1.0"
edition = "2021"
publish = false

[dependencies]
chess = "=3.2.0"
uuid = { version = "=1.29.0", features = ["v4"] }
serde = { version = "=1.0.229", features = ["derive"] }
tokio = { version = "=1.54.1", features = ["rt-multi-thread", "macros", "net", "sync"] }
tokio-tungstenite = "=0.30.0"
futures-util = { version = "=0.3.34", features = ["sink"] }
lazy_static = "=1.5.1"
