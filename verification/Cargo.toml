[package]
name = "chameleon"
version = "0.1.0"
edition = "2021"
publish = false

[dependencies]
freedesktop-desktop-entry = "*"
nucleo = "*"
blake3 = { version = "1", features = ["pure"] }
serde = { version = "1", features = ["derive"] }
serde_json = "1"
toml = "*"
tokio = { version = "1", features = ["rt-multi-thread", "net", "io-util", "sync", "macros", "time", "fs"] }
walkdir = "2"
thiserror = "*"
anyhow = "1"
libc = "0.2"
argh = "*"
suukon = "*"
log = "0.4"
tracing = "0.1"
tracing-subscriber = { version = "0.3", features = ["env-filter"] }
inotify = "*"
futures = "0.3"
niri-ipc = "*"
image = { version = "*", default-features = false, features = ["png", "jpeg"] }
