[package]
name = "fedetivity"
version = "0.1.0"
edition = "2021"
publish = false

[dependencies]
actix = "0.13"
actix-rt = "2"
actix-codec = "0.5"
awc = { version = "3", default-features = false }
env_logger = "0.10"
futures = "0.3"
futures-util = "0.3"
log = "0.4"
tungstenite = "0.20"
