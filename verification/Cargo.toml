[package]
name = "script_sys"
version = "0.1.0"
edition = "2021"
publish = false

[dependencies]
serde = { version = "1", features = ["derive"] }
serde_json = "1"
tokio = { version = "1", features = ["fs", "io-util", "process", "rt-multi-thread", "macros"] }
reqwest = { version = "0.12", default-features = false, features = ["json", "stream", "rustls-tls"] }
async-compression = { version = "0.4", features = ["tokio", "gzip"] }
futures-util = "0.3"
tokio-tar = "0.3"
tokio-util = { version = "0.7", features = ["io"] }
sugar = "*"
tracing = "0.1"
