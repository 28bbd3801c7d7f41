[package]
name = "template_plugin"
version = "0.1.0"
edition = "2021"
publish = false

[dependencies]
bincode = "=1.3.3"
tokio = { version = "=1.54.1", default-features = false, features = ["sync"] }
serde = { version = "=1.0.229", features = ["derive"] }
parking_lot = "=0.12.5"
eyre = "=0.6.14"
futures = "=0.3.34"
iced = { version = "=0.9.0", default-features = false, features = ["glow"] }
iced_native = "=0.10.3"
fpsdk = "=1.0.3"
windows = { version = "=0.48.0", features = ["Win32_Foundation", "Win32_UI_WindowsAndMessaging"] }
