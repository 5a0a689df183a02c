[package]
name = "packet"
version = "0.1.0"
edition = "2021"
publish = false

[dependencies]
gettext-rs = { version = "=0.8.0", features = ["gettext-system"] }
dirs = "=7.0.0"
human_bytes = "=0.4.3"
anyhow = "=1.0.104"
tracing = "=0.1.44"
formatx = "=0.4.2"
fs-err = "=3.3.2"
whoami = "=2.1.3"
port_scanner = "=0.1.5"
tokio = { version = "=1.54.1", features = ["rt-multi-thread", "sync", "macros", "time"] }
tokio-util = "=0.7.20"
async-channel = "=2.5.0"
futures-lite = "=2.6.1"
futures-timer = "=3.0.4"
zbus = "=6.2.1"
ashpd = { version = "=0.13.13", features = ["notification", "background"] }
better_default = "=1.0.5"
glib = "=0.22.10"
gtk4 = "=0.11.5"
libadwaita = "=0.9.2"
