[package]
name = "den"
version = "0.1.0"
edition = "2021"
publish = false

[dependencies]
url = "=2.5.8"
base64 = "=0.23.1"
mime = "=0.3.17"
encoding_rs = "=0.8.42"
serde_json = "=1.0.151"
tokio = { version = "=1.53.2", features = ["rt", "rt-multi-thread", "sync", "time", "signal", "io-util", "fs", "macros"] }
tokio-util = "=0.7.19"
futures = "=0.3.34"
rquickjs = { version = "=0.14.0", features = ["loader", "futures", "macro", "parallel"] }
reqwest = { version = "=0.13.5", default-features = false }
