[package]
name = "sqlite_merge"
version = "0.1.0"
edition = "2021"
publish = false

[dependencies]
anyhow = "*"
clap = { version = "*", features = ["derive"] }
glob = "*"
log = "*"
pretty_env_logger = "*"
rusqlite = { version = "*", features = ["bundled"] }
