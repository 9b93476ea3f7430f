[package]
name = "statusbar"
version = "0.1.0"
edition = "2021"
publish = false

[dependencies]
mpris = "=2.1.0"
serde = { version = "=1.0.229", features = ["derive"] }
sysinfo = { version = "=0.39.6", default-features = false, features = ["system"] }
tauri = { version = "2", default-features = false, features = ["wry"] }
tokio = { version = "=1.54.1", features = ["time"] }
winapi = { version = "=0.3.9", features = ["winbase"] }
windows = { version = "=0.62.2", features = ["Media_Control"] }
