[package]
name = "divviup_api"
version = "0.1.0"
edition = "2021"
publish = false

[dependencies]
aes-gcm = "=0.10.3"
base64 = "=0.23.1"
prio = "=0.18.1"
rand = "=0.8.8"
serde = { version = "=1.0.229", features = ["derive"] }
serde_json = "=1.0.154"
sha2 = "=0.11.1"
subtle = "=2.6.1"
thiserror = "=2.0.21"
time = "=0.3.55"
tokio = { version = "=1.54.1", features = ["net", "rt"] }
url = "=2.5.8"
uuid = { version = "=1.29.0", features = ["v4"] }
validator = "=0.21.0"
