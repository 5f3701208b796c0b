[package]
name = "spoon_comment_viewer"
version = "0.1.0"
edition = "2021"
publish = false

[dependencies]
reqwest = { version = "=0.13.5", default-features = false, features = ["blocking", "query"] }
serde = { version = "=1.0.229", features = ["derive"] }
serde_derive = "=1.0.229"
serde_json = "=1.0.151"
rusqlite = { version = "=0.40.2", features = ["bundled"] }
rand = "=0.10.3"
log = "=0.4.34"
env_logger = "=0.11.11"
ctrlc = "=3.5.2"
tungstenite = "=0.30.0"
