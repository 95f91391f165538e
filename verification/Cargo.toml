[package]
name = "oracle"
version = "0.1.0"
edition = "2021"
publish = false

[dependencies]
byteorder = "1"
chrono = "0.4"
futures = "0.3"
lettre = "0.9"
lettre_email = "0.9"
native-tls = "0.2"
parking_lot = "0.11"
rand = "0.7"
serde = { version = "1", features = ["derive"] }
serde_json = "1"
socket2 = "0.3"
tokio = { version = "0.2", features = ["full"] }
tracing-subscriber = "0.2"
warp = "0.2"
