[package]
name = "lua_bridge"
version = "0.1.0"
edition = "2021"
publish = false

[dependencies]
memchr = "=2.8.3"
clap = { version = "=4.6.7", features = ["string"] }
erdp = "=0.2.1"
rustc-hash = "=2.1.3"
serde = { version = "=1.0.229", features = ["derive"] }
serde_json = "=1.0.154"
serde_yaml = "=0.9.34"
thiserror = "=2.0.21"
tokio = { version = "=1.54.1", features = ["rt", "process", "io-util", "fs"] }
tsuki = { version = "=0.4.8", features = ["serde"] }
url = "=2.5.8"
