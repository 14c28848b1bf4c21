[package]
name = "encryption_node"
version = "0.1.0"
edition = "2021"
publish = false

[dependencies]
chacha20poly1305 = "0.10"
rand = "0.8"
zeroize = "1"
reqwest = { version = "0.12", default-features = false, features = ["multipart", "json"] }
url = "2"
serde_json = "1"
tonic = "0.12"
prost = "0.13"
tokio = { version = "1", features = ["macros", "rt-multi-thread", "time"] }
clap = { version = "4", features = ["derive", "env"] }
color-eyre = "0.6"
humantime = "2"
tracing = "0.1"
tracing-subscriber = { version = "0.3", features = ["env-filter"] }
thiserror = "1"
