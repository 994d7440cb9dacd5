[package]
name = "daily_wallpaper"
version = "0.1.0"
edition = "2021"
publish = false

[dependencies]
chrono = "=0.4.45"
sha256 = { version = "=1.6.0", default-features = false }
serde = { version = "=1.0.229", features = ["derive"] }
serde_json = "=1.0.154"
tokio = { version = "=1.54.1", features = ["macros", "rt-multi-thread", "fs", "time", "sync", "net"] }
reqwest = { version = "=0.12.28", default-features = false, features = ["rustls-tls"] }
axum = "=0.7.9"
log = "=0.4.34"
flexi_logger = "=0.31.10"
open = "=5.4.5"
url = "=2.5.8"
windows = { version = "0.58", features = ["Win32_Foundation", "Win32_System_Com", "Win32_System_Threading", "Win32_System_Diagnostics_ToolHelp", "Win32_UI_WindowsAndMessaging"] }
