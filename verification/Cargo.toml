[package]
name = "ancs_relay"
version = "0.1.0"
edition = "2021"
publish = false

[dependencies]
anyhow = "=1.0.104"
bluer = { version = "=0.17.4", features = ["bluetoothd"] }
config = { version = "=0.14.1", default-features = false, features = ["toml"] }
env_logger = "=0.11.11"
futures = "=0.3.34"
libnotify = "=1.0.3"
log = "=0.4.34"
tokio = { version = "=1.54.1", features = ["macros", "rt", "signal", "sync"] }
xdg = "=2.5.2"

[dev-dependencies]
rand = "=0.8.8"
