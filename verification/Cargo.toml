[package]
name = "cdp_telemetry"
version = "0.1.0"
edition = "2021"
publish = false

[dependencies]
chrono = "0.4"
uuid = { version = "1", features = ["v4"] }
serde = { version = "1", features = ["derive"] }
serde_json = "1"
rusqlite = { version = "*", features = ["bundled"] }
tokio = { version = "1", features = ["sync", "time", "rt-multi-thread", "macros", "process"] }
reqwest = { version = "0.12", default-features = false, features = ["json"] }
chromiumoxide = { version = "0.7", default-features = false, features = ["tokio-runtime"] }
futures-util = "0.3"
thiserror = "1"
tracing = "0.1"
