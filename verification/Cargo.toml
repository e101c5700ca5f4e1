[package]
name = "bvs_core"
version = "0.1.0"
edition = "2021"
publish = false

[dependencies]
rand = "0.8.5"
semver = "1"
time = { version = "0.3", features = ["formatting", "parsing"] }
serde = { version = "1", features = ["derive"] }
serde_json = "1"
bincode = "1.3"
tracing = "0.1"
once_cell = "1"
tungstenite = "0.21"
uuid = { version = "1", features = ["serde"] }
reqwest = { version = "0.12", default-features = false, features = ["json", "rustls-tls"] }
tokio = { version = "1", features = ["rt-multi-thread", "fs", "io-util"] }
zip = { version = "2", default-features = false, features = ["deflate"] }
dirs = "5"
