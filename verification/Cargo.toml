[package]
name = "discord_vc_status"
version = "0.1.0"
edition = "2021"
publish = false

[dependencies]
uuid = { version = "1", features = ["v4"] }
serde_json = "1"
serde = { version = "1", features = ["derive"] }
discord-rich-presence = "*"
reqwest = { version = "0.11", default-features = false, features = ["blocking", "rustls-tls"] }
keyring = "2"
confy = "*"
