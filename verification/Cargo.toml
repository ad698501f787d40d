[package]
name = "piri"
version = "0.1.0"
edition = "2021"
publish = false

[dependencies]
regex = "1"
toml = "0.8"
serde = { version = "1", features = ["derive"] }
serde_json = "1"
anyhow = "1"
log = "0.4"
env_logger = "0.11"
async-trait = "0.1"
tokio = { version = "1", features = ["full"] }
clap = { version = "4", features = ["derive"] }
clap_complete = "4"
shellexpand = "3"
niri-ipc = "*"
reqwest = { version = "0.12", default-features = false, features = ["json"] }
mpris = "2"
libc = "0.2"
cairo-rs = "*"
wayland-client = "0.31"
wayland-protocols-wlr = { version = "0.3", features = ["client"] }
