[package]
name = "sbh_tui"
version = "0.1.0"
edition = "2021"
publish = false

[dependencies]
ftui = "0.2.1"
ftui-backend = "0.2.1"
ftui-core = "0.2.1"
ftui-tty = "0.2.1"
rusqlite = "=0.41.1"
serde = { version = "=1.0.229", features = ["derive"] }
serde_json = "=1.0.154"
sha2 = "=0.10.9"
