[package]
name = "bili_hardcore"
version = "0.1.0"
edition = "2021"
publish = false

[dependencies]
anyhow = "=1.0.104"
dirs = "=7.0.0"
eframe = { version = "=0.37.0", default-features = false, features = ["glow", "x11", "default_fonts"] }
eventsource-stream = "=0.2.3"
futures = "=0.3.34"
hmac = "0.12"
image = { version = "=0.25.10", default-features = false, features = ["png", "jpeg"] }
lucide-icons = "=1.66.0"
md-5 = "0.10"
qrcode = { version = "=0.14.1", default-features = false }
reqwest = { version = "=0.12.28", default-features = false, features = ["json", "stream", "rustls-tls"] }
serde = { version = "=1.0.229", features = ["derive"] }
serde_json = "=1.0.154"
sha2 = "0.10"
time = { version = "=0.3.55", features = ["formatting", "macros"] }
tokio = { version = "=1.54.1", features = ["rt-multi-thread", "macros", "sync", "time"] }
tokio-util = "=0.7.20"
tracing = "=0.1.44"
urlencoding = "=2.1.3"
webbrowser = "=1.2.6"
windows-sys = { version = "=0.61.2", features = ["Win32_Foundation", "Win32_Storage_FileSystem", "Win32_System_Console", "Win32_Security"] }
