[package]
name = "artycon_overlay"
version = "0.1.0"
edition = "2021"
publish = false

[dependencies]
aes-gcm = "0.10"
base64 = "0.22"
hkdf = "0.12"
sha2 = "0.10"
rand = "0.8"
url = "2"
serde = { version = "1", features = ["derive"] }
serde_json = "1"
zeroize = { version = "1", features = ["derive"] }
reqwest = { version = "0.12", default-features = false, features = ["json"] }
tokio = { version = "1", features = ["sync", "time", "rt", "macros"] }
eventsource-client = "0.13"
futures-util = "0.3"
tiny_http = "0.12"
machine-uid = "0.5"
hostname = "0.4"
