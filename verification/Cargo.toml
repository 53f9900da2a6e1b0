[package]
name = "tailray"
version = "0.1.0"
edition = "2021"
publish = false

[dependencies]
arboard = { version = "=3.7.0", default-features = false }
env_logger = "=0.11.11"
ksni = { version = "=0.3.7", features = ["blocking"] }
log = "=0.4.34"
notify-rust = "=4.18.2"
open = "=5.4.5"
resvg = "=0.48.1"
serde = { version = "=1.0.229", features = ["derive"] }
serde_json = "=1.0.154"
thiserror = "=2.0.21"
tiny-skia = "=0.12.0"
usvg = "=0.48.1"
which = "=8.0.6"
whoami = "=1.6.1"
