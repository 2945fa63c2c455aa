[package]
name = "lay_mitouosc"
version = "0.1.0"
edition = "2021"
publish = false

[dependencies]
rosc = "*"
lay = "*"
lay-steane = "*"
tokio = { version = "1", features = ["rt-multi-thread", "macros", "net", "sync", "signal"] }
anyhow = "1"
log = "0.4"
env_logger = "*"
thiserror = "1"
