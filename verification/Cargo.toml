[package]
name = "graphics_switch"
version = "0.1.0"
edition = "2021"
publish = false

[dependencies]
log = "0.4"
serde = { version = "1.0", features = ["derive"] }
serde_json = "1.0"
sysfs-class = "0.1"
thiserror = "1.0"
