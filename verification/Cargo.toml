[package]
name = "copy2ai"
version = "0.1.0"
edition = "2021"
publish = false

[dependencies]
arboard = "*"
base64 = "*"
chrono = "*"
futures-util = "*"
image = { version = "*", default-features = false, features = ["png"] }
md5 = "*"
rand = "*"
reqwest = { version = "*", default-features = false, features = ["json", "rustls-tls", "stream"] }
serde = { version = "*", features = ["derive"] }
serde_json = "*"
sysinfo = "*"
tokio = { version = "*", features = ["rt", "rt-multi-thread", "macros", "io-util"] }
tokio-util = { version = "*", features = ["io"] }
uuid = { version = "*", features = ["v4"] }
