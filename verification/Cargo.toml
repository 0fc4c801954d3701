[package]
name = "ostui"
version = "0.1.0"
edition = "2021"
publish = false

[dependencies]
chrono = "0.4"
ratatui = "0.29"
crossterm = "0.28"
tokio = { version = "1", features = ["sync", "rt", "macros"] }
async-trait = "0.1"
thiserror = "1"
reqwest = { version = "0.12", default-features = false, features = ["json"] }
serde = { version = "1", features = ["derive"] }
serde_json = "1"
