[package]
name = "vrcx_application"
version = "0.1.0"
edition = "2021"
publish = false

[dependencies]
chrono = { version = "=0.4.45", default-features = false, features = ["clock", "std"] }
fastrand = "=2.5.0"
futures-util = { version = "0.3", default-features = false, features = ["std", "async-await-macro"] }
getrandom = "=0.4.3"
hex = "=0.4.3"
moka = { version = "0.12", features = ["future"] }
regex = "=1.13.1"
serde = { version = "=1.0.229", features = ["derive"] }
serde_json = "=1.0.154"
sha2 = "=0.10.9"
tokio = { version = "1", default-features = false, features = ["sync", "time", "macros"] }
tracing = "=0.1.44"
uuid = { version = "=1.29.0", features = ["v4"] }
