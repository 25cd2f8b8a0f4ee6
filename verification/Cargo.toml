[package]
name = "cryptocurrency"
version = "0.1.0"
edition = "2021"
publish = false

[dependencies]
serde = { version = "=1.0.229", features = ["derive"] }
serde_json = "=1.0.151"
iron = "=0.6.1"
router = "=0.6.0"
bodyparser = "=0.8.0"
sha2 = "*"
ed25519-dalek = "*"
