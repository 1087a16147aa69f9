[package]
name = "rusty_lights"
version = "0.1.0"
edition = "2021"
publish = false

[dependencies]
uuid = { version = "1", features = ["v4"] }
log = "0.4"
env_logger = "0.11"
clap = { version = "4", features = ["derive"] }
ctrlc = "3"
serde = { version = "1", features = ["derive"] }
serde_json = "1"
socket2 = "0.5"
thiserror = "2"
tungstenite = "0.26"
ureq = { version = "3", default-features = false, features = ["json"] }
realfft = "3"
toml = "0.8"
