[package]
name = "wireman"
version = "0.1.0"
edition = "2021"
publish = false

[dependencies]
arboard = { version = "=3.7.0", default-features = false }
crossterm = { version = "=0.27.0", features = ["event-stream"] }
edtui = { version = "=0.5.1", default-features = false }
futures = "=0.3.34"
lazy_static = "=1.5.1"
ratatui = "=0.27.0"
serde = { version = "=1.0.229", features = ["derive"] }
serde_json = "=1.0.154"
shellexpand = "=3.1.2"
tokio = { version = "=1.54.1", features = ["macros", "rt-multi-thread", "sync"] }
toml = "=0.8.23"
tui-widget-list = "0.10"
