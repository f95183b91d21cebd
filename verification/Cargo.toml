[package]
name = "karma_p2p"
version = "0.1.0"
edition = "2021"
publish = false

[dependencies]
webrtc = "=0.21.0"
futures-lite = "=2.6.1"
bytes = "=1.12.1"
serde = { version = "=1.0.229", features = ["derive"] }
serde_json = "=1.0.151"
async-trait = "=0.1.92"
