[package]
name = "traybridge"
version = "0.1.0"
edition = "2021"
publish = false

[dependencies]
image = { version = "*", default-features = false, features = ["png"] }
slint = { version = "*", default-features = false, features = ["std", "compat-1-2"] }
i-slint-backend-selector = { version = "*", default-features = false }
tokio = { version = "*", default-features = false, features = ["rt-multi-thread", "sync"] }
tray-icon = "*"
