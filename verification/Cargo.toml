[package]
name = "oxidpulse"
version = "0.1.0"
edition = "2021"
publish = false

[dependencies]
serde = { version = "1", features = ["derive"] }
serde_json = "1"
sysinfo = "0.33"
chrono = "0.4"
dirs = "5"
open = "5"
tokio = { version = "1", features = ["time", "net", "rt", "macros"] }
windows = { version = "0.58", features = ["Win32_Foundation", "Win32_System_Power", "Win32_Storage_FileSystem", "Win32_System_IO", "Win32_Security"] }
