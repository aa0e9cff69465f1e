[package]
name = "i3bar"
version = "0.1.0"
edition = "2021"
publish = false

[dependencies]
bytes = "=0.4.12"
chrono = "=0.4.45"
serde = { version = "=1.0.229", features = ["derive"] }
serde_json = "=1.0.154"
futures = "=0.1.31"
tokio-core = "=0.1.18"
tokio-io = "=0.1.13"
tokio-process = "=0.1.6"
tokio-timer = "=0.1.2"
tokio-file-unix = "=0.4.2"
owning_ref = "=0.3.3"
mio = "=0.6.23"
libc = "=0.2.191"
sysinfo = "=0.5.8"
mpd = "=0.1.0"
