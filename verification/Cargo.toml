[package]
name = "plug"
version = "0.1.0"
edition = "2021"
publish = false

[dependencies]
buttplug = { version = "=7.1.16", default-features = false, features = ["client", "server", "serialize-json", "tokio-runtime"] }
tokio = { version = "1", features = ["sync", "time", "rt", "macros"] }
futures = "0.3"
cxx = "1"
