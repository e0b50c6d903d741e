[package]
name = "power_monitor"
version = "0.1.0"
edition = "2021"
publish = false

[dependencies]
serde = { version = "1", features = ["derive"] }
thiserror = "2"
log = "0.4"
tauri = { version = "2", default-features = false }
zbus = "5"
async-io = "2"
event-listener = "5"
futures-util = "0.3"
core-foundation = "0.10"
