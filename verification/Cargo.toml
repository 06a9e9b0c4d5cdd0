[package]
name = "lopxy"
version = "0.1.0"
edition = "2021"
publish = false

[dependencies]
url = "=2.5.8"
urlencoding = "=2.1.3"
httparse = "=1.10.1"
reqwest = { version = "=0.11.27", default-features = false, features = ["json"] }
chrono = "=0.4.45"
sysinfo = "=0.29.11"
netstat = "=0.6.2"
tokio = { version = "1", features = ["full"] }
async-std = "1"
async-shutdown = "=0.1.4"
futures = "0.3"
clap = { version = "=3.2.25", features = ["derive"] }
rocket = "=0.5.2"
serde = { version = "1", features = ["derive"] }
serde_json = "1"
toml = "=0.5.11"
dirs = "=4.0.0"
daemonize = "=0.4.1"
winreg = "0.50"
winapi = { version = "0.3", features = ["wininet"] }
