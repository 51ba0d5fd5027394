[package]
name = "bevy_stdb_auth"
version = "0.2.0"
edition = "2021"
publish = false

[dependencies]
url = "=2.5.8"
oauth2 = { version = "=5.0.0", default-features = false }
hex = "=0.4.3"
bevy_app = "=0.19.1"
bevy_ecs = "=0.19.1"
bevy_tasks = "=0.19.1"
bevy_time = "=0.19.1"
reqwest = { version = "=0.12.28", default-features = false, features = ["blocking", "json", "rustls-tls"] }
serde = { version = "=1.0.229", features = ["derive"] }
serde_json = "=1.0.154"
thiserror = "=2.0.21"
webbrowser = "=1.2.6"
keyring-core = "=1.0.1"
zbus-secret-service-keyring-store = { version = "=1.0.1", features = ["rt-async-io-crypto-rust"] }
steamworks = "=0.13.1"
js-sys = "=0.3.107"
web-sys = { version = "=0.3.107", features = ["Window", "Location", "Storage", "History"] }
apple-native-keyring-store = { version = "=1.0.2", features = ["keychain"] }
windows-native-keyring-store = "=1.1.0"
