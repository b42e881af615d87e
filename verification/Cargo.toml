[package]
name = "snap_rat"
version = "0.1.0"
edition = "2021"
publish = false

[dependencies]
snapd-rs-artie = "=0.2.2"
serde = { version = "=1.0.229", features = ["derive"] }
serde_json = "=1.0.154"
tokio = { version = "=1.54.1", features = ["full"] }
anyhow = "=1.0.104"
crossterm = "=0.29.0"
ratatui = "=0.30.2"
ratatui-image = { version = "=11.1.0", default-features = false, features = ["crossterm"] }
image = { version = "=0.25.10", default-features = false, features = ["png"] }
reqwest = { version = "=0.13.5", default-features = false }
