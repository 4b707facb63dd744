[package]
name = "ps_utils"
version = "0.1.0"
edition = "2021"
publish = false

[dependencies]
anyhow = "1"
clap = { version = "4", features = ["derive"] }
crossterm = "0.28"
serde = { version = "1", features = ["derive"] }
serde_json = "1"
sysinfo = "0.30"
zip = { version = "2", default-features = false, features = ["deflate"] }
