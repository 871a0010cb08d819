[package]
name = "jhook"
version = "0.1.0"
edition = "2021"
publish = false

[dependencies]
anyhow = "1"
hex = "0.4"
jni = "0.21"
libffi = "3"
once_cell = "1"
rand = "0.8"
rsa = "0.9"
serde = { version = "1", features = ["derive"] }
serde_json = "1"
tokio = { version = "1", features = ["net", "io-util", "time", "rt"] }
tracing = "0.1"
uuid = "1"
