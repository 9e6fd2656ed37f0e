[package]
name = "maxobot"
version = "0.1.0"
edition = "2021"
publish = false

[dependencies]
async-trait = "*"
bytes = "*"
http = "1"
parking_lot = "*"
reqwest = { version = "0.12", default-features = false, features = ["json"] }
serde = { version = "1", features = ["derive"] }
serde_json = "1"
thiserror = "*"
tokio = { version = "1", features = ["time", "rt", "macros", "sync"] }
tracing = "*"
url = "2"
uuid = { version = "1", features = ["v7"] }
