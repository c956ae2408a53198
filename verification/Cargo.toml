[package]
name = "teams_presence_bridge"
version = "0.1.0"
edition = "2021"
publish = false

[dependencies]
semver = "1"
serde = { version = "1", features = ["derive"] }
serde_json = "1"
ureq = { version = "3", default-features = false, features = ["json", "rustls"] }
hidapi = "2"
serialport = { version = "4", default-features = false }
espflash = { version = "4", default-features = false, features = ["serialport"] }
eframe = { version = "*", default-features = false, features = ["glow", "default_fonts", "x11"] }
tray-icon = { version = "*", default-features = false }
winreg = "*"
open = "5"
