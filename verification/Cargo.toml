[package]
name = "zhunji"
version = "0.1.0"
edition = "2021"
publish = false

[dependencies]
anyhow = "1"
arboard = { version = "3", default-features = false }
base64 = "0.22"
chrono = { version = "0.4", default-features = false, features = ["clock", "std"] }
ferrous-opencc = "*"
futures-util = { version = "0.3", default-features = false, features = ["sink", "std"] }
keyring = { version = "3", default-features = false, features = ["apple-native"] }
libc = "0.2"
log = "0.4"
md-5 = "0.10"
once_cell = "1"
opus = "0.3"
parking_lot = "0.12"
reqwest = { version = "0.12", default-features = false, features = ["json", "multipart", "rustls-tls"] }
serde = { version = "1", features = ["derive"] }
serde_json = "1"
simplelog = "0.12"
thiserror = "1"
tokio = { version = "1", features = ["rt-multi-thread", "sync", "time", "macros", "net"] }
tokio-tungstenite = { version = "0.24", features = ["rustls-tls-webpki-roots"] }
uuid = { version = "1", features = ["v4"] }
