[package]
name = "omywall"
version = "0.1.0"
edition = "2021"
publish = false

[dependencies]
serde = { version = "=1.0.229", features = ["derive"] }
serde_json = "=1.0.154"
dirs = "=5.0.1"
clap = { version = "=4.6.7", features = ["derive"] }
tokio = { version = "=1.54.1", features = ["rt-multi-thread", "net", "io-util", "time", "macros"] }
reqwest = { version = "=0.12.28", default-features = false, features = ["blocking", "rustls-tls"] }
libc = "=0.2.191"
toml = "=0.8.23"
mlua = { version = "=0.10.5", features = ["lua54", "vendored", "serialize"] }
ratatui = "0.29"
crossterm = "0.28"
