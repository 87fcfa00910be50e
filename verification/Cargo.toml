[package]
name = "navidrome_tui"
version = "0.1.0"
edition = "2021"
publish = false

[dependencies]
anyhow = "1"
crossterm = "0.28"
dirs = "5"
libmpv2 = "4"
md5 = "0.7"
rand = "0.8"
ratatui = "0.29"
reqwest = "0.12"
serde = { version = "1", features = ["derive"] }
serde_json = "1"
tokio = { version = "1", features = ["full"] }
toml = "0.8"
unicode-width = "0.2"
