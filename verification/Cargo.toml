[package]
name = "ws_socket"
version = "0.1.0"
edition = "2021"
publish = false

[dependencies]
clap = { version = "=4.6.7", features = ["derive"] }
futures-util = "=0.3.34"
serde = { version = "=1.0.229", features = ["derive"] }
serde_json = "=1.0.154"
thiserror = "=1.0.69"
tokio = { version = "=1.54.1", features = ["macros", "rt-multi-thread", "time", "net"] }
tokio-tungstenite = { version = "=0.20.1", features = ["native-tls"] }
tungstenite = "=0.20.1"
