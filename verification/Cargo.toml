[package]
name = "nocturne"
version = "0.1.0"
edition = "2021"
publish = false

[dependencies]
async-stream = "0.3"
axum = "0.8"
crossterm = { version = "0.28", features = ["event-stream"] }
eventsource-stream = "0.2"
futures-util = "0.3"
kira = "0.10"
ratatui = "0.29"
reqwest = { version = "0.12", default-features = false, features = ["json", "stream"] }
serde = { version = "1", features = ["derive"] }
serde_json = "1"
sha2 = "0.10"
stream-download = { version = "*", default-features = false, features = ["process", "reqwest", "temp-storage"] }
symphonia = { version = "0.5", default-features = false }
tokio = { version = "1", features = ["full"] }
