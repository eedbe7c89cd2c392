[package]
name = "openai_api_rs"
version = "0.1.0"
edition = "2021"
publish = false

[dependencies]
serde_json = "*"
serde = { version = "*", features = ["derive"] }
reqwest = { version = "*", default-features = false, features = ["json", "multipart", "stream", "rustls-tls"] }
futures-util = "*"
bytes = "*"
tokio = { version = "*", features = ["net"] }
tokio-tungstenite = "*"
url = "*"
