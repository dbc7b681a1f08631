[package]
name = "webex"
version = "0.1.0"
edition = "2021"
publish = false

[dependencies]
serde_json = "=1.0.151"
url = "=2.5.8"
tokio-tungstenite = "=0.30.0"
serde = { version = "=1.0.229", features = ["derive"] }
reqwest = { version = "=0.13.5", default-features = false, features = ["json", "form"] }
tokio = { version = "=1.53.2", features = ["rt-multi-thread", "macros", "time"] }
futures-util = "=0.3.34"
http = "=1.5.0"
chrono = { version = "=0.4.45", features = ["serde"] }
clap = { version = "=4.6.7", features = ["derive"] }
thiserror = "=2.0.21"
