[package]
name = "skill_manager"
version = "0.1.0"
edition = "2021"
publish = false

[dependencies]
anyhow = "1"
serde = { version = "1", features = ["derive"] }
serde_json = "1"
structopt = "0.3"
termion = "1.5"
thiserror = "1"
time = { version = "0.2", features = ["serde"] }
tokio = { version = "0.2", features = ["full"] }
tui = "0.8"
uuid = { version = "0.8", features = ["v4", "serde"] }
warp = "0.2"
